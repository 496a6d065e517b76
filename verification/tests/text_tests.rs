use liidi::completion::split_name;
use liidi::schema::CompanyProfile;
use liidi::prompts::{DEFAULT_COMPANY_PROMPT, build_research_prompt, conversation_output_path,
    format_lead_context, get_default_prompt, person_research_paths, scoring_output_path};
use liidi::schema::{Lead, Person, ResearchStatus};
use liidi::textutil::{find_char_from, find_sub_from, i64_to_string, slug_of, str_eq,
    u64_to_string};

fn sample_lead() -> Lead {
    Lead {
        id: 42,
        company_name: "Acme".to_string(),
        website: Some("https://acme.test".to_string()),
        industry: None,
        sub_industry: None,
        employees: Some(120),
        employee_range: Some("51-200".to_string()),
        revenue: None,
        revenue_range: None,
        company_linkedin_url: None,
        city: Some("Oslo".to_string()),
        state: None,
        country: Some("Norway".to_string()),
        research_status: ResearchStatus::Pending,
        researched_at: None,
        user_status: "new".to_string(),
        created_at: 0,
        company_profile: None,
    }
}

fn sample_person() -> Person {
    Person {
        id: 7,
        lead_id: Some(42),
        first_name: "Eva".to_string(),
        last_name: "Lund".to_string(),
        email: None,
        title: Some("CTO".to_string()),
        management_level: None,
        linkedin_url: None,
        year_joined: Some(2020),
        person_profile: None,
        research_status: ResearchStatus::Pending,
        researched_at: None,
        user_status: "new".to_string(),
        conversation_topics: None,
        conversation_generated_at: None,
        created_at: 0,
    }
}

#[test]
fn string_helpers_behave() {
    assert!(str_eq("abc", "abc"));
    assert!(!str_eq("abc", "abd"));
    assert!(!str_eq("abc", "ab"));
    assert_eq!(u64_to_string(0), "0");
    assert_eq!(u64_to_string(90210), "90210");
    assert_eq!(i64_to_string(-42), "-42");
    assert_eq!(i64_to_string(i64::MIN), "-9223372036854775808");
    assert_eq!(find_sub_from("hello world", "world", 0), Some(6));
    assert_eq!(find_sub_from("hello world", "worlds", 0), None);
    assert_eq!(find_sub_from("aaa", "a", 1), Some(1));
    assert_eq!(find_char_from("a/b/c", '/', 2), Some(3));
}

#[test]
fn slugs_lowercase_and_replace_punctuation() {
    assert_eq!(slug_of("Acme"), "acme");
    assert_eq!(slug_of("Acme Corp. A/S"), "acme_corp__a_s");
    assert_eq!(slug_of("Data-Ware 9000"), "data_ware_9000");
}

#[test]
fn names_split_on_the_first_word() {
    assert_eq!(split_name("Ada Lovelace"), ("Ada".to_string(), "Lovelace".to_string()));
    assert_eq!(split_name("  Grace   Brewster Hopper"),
        ("Grace".to_string(), "Brewster Hopper".to_string()));
    assert_eq!(split_name("Cher"), ("Cher".to_string(), "".to_string()));
    assert_eq!(split_name("   "), ("".to_string(), "".to_string()));
}

#[test]
fn default_prompts_cover_the_four_kinds() {
    assert_eq!(get_default_prompt("company"), Some(DEFAULT_COMPANY_PROMPT));
    assert!(get_default_prompt("person").is_some());
    assert!(get_default_prompt("conversation_topics").is_some());
    assert!(get_default_prompt("company_profile_research").is_some());
    assert!(get_default_prompt("company_overview").is_none());
}

#[test]
fn output_paths_follow_the_layout() {
    let p = person_research_paths("/data", 7, "Eva Lund");
    assert_eq!(p.dir, "/data/research/person_7_eva_lund");
    assert_eq!(p.profile_path, "/data/research/person_7_eva_lund/person_profile.md");
    assert_eq!(p.enrichment_path, "/data/research/person_7_eva_lund/enrichment.json");
    assert_eq!(
        scoring_output_path("/data", 42, "Acme"),
        "/data/scoring/score_42_acme.json"
    );
    assert_eq!(
        conversation_output_path("/data", 7, "Eva Lund"),
        "/data/conversations/conversation_7_eva_lund.md"
    );
}

#[test]
fn the_research_prompt_embeds_paths_and_facts() {
    let prompt = build_research_prompt(
        "Do the research.",
        &sample_lead(),
        "/out/profile.md",
        "/out/people.json",
        "/out/enrichment.json",
        Some("We sell anvils."),
        None,
    );
    assert!(prompt.starts_with("# Company Overview\n\nWe sell anvils.\n\n---\n\n"));
    assert!(prompt.contains("Do the research."));
    assert!(prompt.contains("Company Name: Acme\n"));
    assert!(prompt.contains("Website: https://acme.test\n"));
    assert!(!prompt.contains("Industry: "), "absent fields leave no line");
    assert!(prompt.contains("Write the company profile to: /out/profile.md"));
    assert!(prompt.contains("Write the people JSON to: /out/people.json"));
    assert!(prompt.contains("/out/enrichment.json"));
    assert!(prompt.contains("firstName"));
}

#[test]
fn the_lead_context_spells_out_missing_fields() {
    let ctx = format_lead_context(&sample_lead(), &vec![sample_person()]);
    assert!(ctx.starts_with("Company Name: Acme\nWebsite: https://acme.test\nIndustry: N/A\n"));
    assert!(ctx.contains("Employees: 120\n"));
    assert!(ctx.contains("Revenue: N/A\n"));
    assert!(ctx.contains("Key People (1):"));
    assert!(ctx.contains("\n  - Eva Lund, CTO (No email, No LinkedIn)"));
    let empty = format_lead_context(&sample_lead(), &vec![]);
    assert!(!empty.contains("Key People"));
}

#[test]
fn the_profile_context_quotes_each_decoded_section() {
    let profile = CompanyProfile {
        id: 1,
        company_name: "Zyn".to_string(),
        product_name: "Liidi".to_string(),
        website: "https://zyn.test".to_string(),
        target_audience: "[{\"segment\":\"SMB sales teams\",\"description\":\"Five to fifty seats\"}]".to_string(),
        usps: "[{\"headline\":\"Fast research\",\"explanation\":\"Minutes, not days\"}]".to_string(),
        marketing_narrative: "We accelerate outbound.".to_string(),
        sales_narrative: "{\"elevatorPitch\":\"Research on tap\",\"talkingPoints\":[{\"content\":\"Saves an hour a lead\"}]}".to_string(),
        competitors: "[{\"name\":\"Legacy CRM\"}]".to_string(),
        market_insights: "[{\"content\":\"Outbound is crowded\"}]".to_string(),
        raw_analysis: "{}".to_string(),
        research_status: ResearchStatus::Completed,
        researched_at: Some(1),
        created_at: 0,
        updated_at: 1,
    };
    let ctx = liidi::prompts::format_company_profile_context(&profile);
    assert!(ctx.starts_with("## Our Company Profile\n\n**Company:** Zyn\n"));
    assert!(ctx.contains("**Target Audience:**\n- SMB sales teams\n  Five to fifty seats\n"));
    assert!(ctx.contains("**Unique Selling Propositions:**\n- Fast research\n  Minutes, not days\n"));
    assert!(ctx.contains("**Marketing Narrative:**\nWe accelerate outbound.\n"));
    assert!(ctx.contains("**Sales Narrative - Elevator Pitch:**\nResearch on tap\n"));
    assert!(ctx.contains("**Sales Talking Points:**\n- Saves an hour a lead\n"));
    assert!(ctx.contains("**Competitors:**\n- Legacy CRM\n"));
    assert!(ctx.contains("**Market Insights:**\n- [General] Outbound is crowded\n"));
    // Broken JSON sections simply contribute nothing.
    let mut bare = profile;
    bare.target_audience = "not json".to_string();
    bare.usps = "[]".to_string();
    bare.marketing_narrative = String::new();
    bare.sales_narrative = String::new();
    bare.competitors = String::new();
    bare.market_insights = String::new();
    let ctx = liidi::prompts::format_company_profile_context(&bare);
    assert!(!ctx.contains("Target Audience"));
    assert!(!ctx.contains("Marketing Narrative"));
}
