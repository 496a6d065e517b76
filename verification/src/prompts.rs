use vstd::prelude::*;
use vstd::string::StringExecFns;
use crate::jsonio::{PairFields, pair_array_of, parse_pair_array, parse_sales_narrative,
    sales_fields_of};
use crate::schema::{CompanyProfile, Lead, Person};
use crate::store::str_of;
use crate::textutil::{spec_i64_string, spec_slug_of, i64_to_string, slug_of};

verus! {

/// The built-in prompt for researching a target company.
pub const DEFAULT_COMPANY_PROMPT: &'static str = "# Company Research\n\nResearch the company named below using web search. Write a thorough markdown profile covering what the company does, its products, market, size, and recent news. Identify the key decision makers and list them in the people JSON file.";

/// The built-in prompt for researching a target person.
pub const DEFAULT_PERSON_PROMPT: &'static str = "# Person Research\n\nResearch the person named below using web search. Write a markdown profile covering their role, background, tenure, and public activity relevant to a sales conversation.";

/// The built-in prompt for generating conversation topics.
pub const DEFAULT_CONVERSATION_PROMPT: &'static str = "# Conversation Topics\n\nUsing the person and company context given, propose concrete talking points and engagement strategies for a first sales conversation. Ground every point in the research provided.";

/// The built-in prompt for analysing the user's own company.
pub const DEFAULT_COMPANY_PROFILE_PROMPT: &'static str = "# Company Profile Analysis\n\nAnalyse the company named below from its public web presence. Produce a JSON object with targetAudience, usps, salesNarrative, competitors, marketInsights and marketingNarrative fields, each grounded in what you find.";

/// The shape the people output file must have.
pub const PEOPLE_JSON_SCHEMA: &'static str = "\nThe people JSON should be an array of objects with these fields:\n- firstName (string)\n- lastName (string)\n- email (string, optional)\n- title (string)\n- linkedinUrl (string, optional)\n- managementLevel (string, optional) - one of: C-Level, VP, Director, Manager, IC\n- yearJoined (number, optional) - the year they joined the company";

/// The shape the company enrichment file must have.
pub const LEAD_ENRICHMENT_SCHEMA: &'static str = "This file should contain verified company data in JSON format. Only include fields where you have found reliable data:\n```json\n{\n  \"website\": \"https://company.com\",\n  \"industry\": \"Technology\",\n  \"subIndustry\": \"Enterprise Software\",\n  \"employees\": 500,\n  \"employeeRange\": \"201-500\",\n  \"revenue\": 50000000,\n  \"revenueRange\": \"$10M-$50M\",\n  \"companyLinkedinUrl\": \"https://linkedin.com/company/...\",\n  \"city\": \"San Francisco\",\n  \"state\": \"California\",\n  \"country\": \"United States\"\n}\n```\n\nIMPORTANT: Only include fields with verified data. Omit fields if uncertain.";

/// The shape the person enrichment file must have.
pub const PERSON_ENRICHMENT_SCHEMA: &'static str = "This file should contain verified person data in JSON format. Only include fields where you have found reliable data:\n```json\n{\n  \"email\": \"name@company.com\",\n  \"title\": \"Senior Vice President of Sales\",\n  \"managementLevel\": \"VP\",\n  \"linkedinUrl\": \"https://linkedin.com/in/...\",\n  \"yearJoined\": 2020\n}\n```\n\nValid managementLevel values: C-Level, VP, Director, Manager, IC\nIMPORTANT: Only include fields with verified data. Omit fields if uncertain.";

/// The built-in prompt for a given prompt type; the company overview has
/// none, it must come from the caller.
pub fn get_default_prompt(prompt_type: &str) -> (r: Option<&'static str>)
    ensures
        (r is Some) <==> (prompt_type@ == "company"@ || prompt_type@ == "person"@
            || prompt_type@ == "conversation_topics"@ || prompt_type@
            == "company_profile_research"@),
        prompt_type@ == "company"@ ==> (r matches Some(p) && p@ == DEFAULT_COMPANY_PROMPT@),
        prompt_type@ == "person"@ ==> (r matches Some(p) && p@ == DEFAULT_PERSON_PROMPT@),
        prompt_type@ == "conversation_topics"@ ==> (r matches Some(p) && p@
            == DEFAULT_CONVERSATION_PROMPT@),
        prompt_type@ == "company_profile_research"@ ==> (r matches Some(p) && p@
            == DEFAULT_COMPANY_PROFILE_PROMPT@),
{
    proof {
        reveal_strlit("company");
        reveal_strlit("person");
        reveal_strlit("conversation_topics");
        reveal_strlit("company_profile_research");
        assert(("company"@).len() == 7);
        assert(("person"@).len() == 6);
        assert(("conversation_topics"@).len() == 19);
        assert(("company_profile_research"@).len() == 24);
    }
    if crate::textutil::str_eq(prompt_type, "company") {
        Some(DEFAULT_COMPANY_PROMPT)
    } else if crate::textutil::str_eq(prompt_type, "person") {
        Some(DEFAULT_PERSON_PROMPT)
    } else if crate::textutil::str_eq(prompt_type, "conversation_topics") {
        Some(DEFAULT_CONVERSATION_PROMPT)
    } else if crate::textutil::str_eq(prompt_type, "company_profile_research") {
        Some(DEFAULT_COMPANY_PROFILE_PROMPT)
    } else {
        None
    }
}

/// A labelled line for a field that may be absent: nothing when it is.
pub open spec fn spec_opt_field(label: Seq<char>, v: Option<String>) -> Seq<char> {
    match v {
        Some(x) => label + x@ + "\n"@,
        None => Seq::empty(),
    }
}

fn append_opt_field(s: &mut String, label: &str, v: &Option<String>)
    ensures
        final(s)@ == old(s)@ + spec_opt_field(label@, *v),
{
    if let Some(x) = v {
        s.append(label);
        s.append(x.as_str());
        s.append("\n");
    }
    proof {
        assert(final(s)@ =~= old(s)@ + spec_opt_field(label@, *v));
    }
}

/// The company research prompt: the optional overview and profile context,
/// the prompt text, the company's facts, and the output-file instructions
/// with the people and enrichment schemas, in that order.
pub open spec fn spec_build_research_prompt(prompt: Seq<char>, lead: Lead,
    profile_path: Seq<char>, people_path: Seq<char>, enrichment_path: Seq<char>,
    company_overview: Option<Seq<char>>, company_profile_context: Option<Seq<char>>)
    -> Seq<char> {
    (match company_overview {
        Some(o) => "# Company Overview\n\n"@ + o + "\n\n---\n\n"@,
        None => Seq::empty(),
    }) + (match company_profile_context {
        Some(c) => c + "---\n\n"@,
        None => Seq::empty(),
    }) + prompt + "\n\n# Company Information\n\nCompany Name: "@ + lead.company_name@ + "\n"@
        + spec_opt_field("Website: "@, lead.website) + spec_opt_field(
        "Industry: "@,
        lead.industry,
    ) + spec_opt_field("City: "@, lead.city) + spec_opt_field("State: "@, lead.state)
        + spec_opt_field("Country: "@, lead.country) + spec_opt_field(
        "Employees: "@,
        lead.employee_range,
    ) + "\n# Output Files\n\nWrite the company profile to: "@ + profile_path
        + "\nWrite the people JSON to: "@ + people_path + "\n"@ + PEOPLE_JSON_SCHEMA@ + "\n"@
        + "\n# Enrichment Data\n\nAdditionally, write structured enrichment data to: "@
        + enrichment_path + "\n\n"@ + LEAD_ENRICHMENT_SCHEMA@ + "\n"@
}

/// Builds the full company research prompt handed to the child.
#[verifier::rlimit(80)]
pub fn build_research_prompt(prompt: &str, lead: &Lead, profile_path: &str, people_path: &str,
    enrichment_path: &str, company_overview: Option<&str>,
    company_profile_context: Option<&str>) -> (r: String)
    ensures
        r@ == spec_build_research_prompt(
            prompt@,
            *lead,
            profile_path@,
            people_path@,
            enrichment_path@,
            match company_overview {
                Some(o) => Some(o@),
                None => None,
            },
            match company_profile_context {
                Some(c) => Some(c@),
                None => None,
            },
        ),
{
    let mut s = String::new();
    let ghost mut g: Seq<char> = Seq::empty();
    if let Some(o) = company_overview {
        s.append("# Company Overview\n\n");
        s.append(o);
        s.append("\n\n---\n\n");
    }
    proof {
        g = g + (match company_overview {
            Some(o) => "# Company Overview\n\n"@ + o@ + "\n\n---\n\n"@,
            None => Seq::empty(),
        });
        assert(s@ =~= g);
    }
    if let Some(c) = company_profile_context {
        s.append(c);
        s.append("---\n\n");
    }
    proof {
        g = g + (match company_profile_context {
            Some(c) => c@ + "---\n\n"@,
            None => Seq::empty(),
        });
        assert(s@ =~= g);
    }
    s.append(prompt);
    s.append("\n\n# Company Information\n\nCompany Name: ");
    s.append(lead.company_name.as_str());
    s.append("\n");
    append_opt_field(&mut s, "Website: ", &lead.website);
    append_opt_field(&mut s, "Industry: ", &lead.industry);
    append_opt_field(&mut s, "City: ", &lead.city);
    append_opt_field(&mut s, "State: ", &lead.state);
    append_opt_field(&mut s, "Country: ", &lead.country);
    append_opt_field(&mut s, "Employees: ", &lead.employee_range);
    s.append("\n# Output Files\n\nWrite the company profile to: ");
    s.append(profile_path);
    s.append("\nWrite the people JSON to: ");
    s.append(people_path);
    s.append("\n");
    s.append(PEOPLE_JSON_SCHEMA);
    s.append("\n");
    s.append("\n# Enrichment Data\n\nAdditionally, write structured enrichment data to: ");
    s.append(enrichment_path);
    s.append("\n\n");
    s.append(LEAD_ENRICHMENT_SCHEMA);
    s.append("\n");
    s
}

/// The person research prompt: the optional context, the prompt text, the
/// person's and company's facts, and the output-file instructions with the
/// person enrichment schema.
pub open spec fn spec_build_person_research_prompt(prompt: Seq<char>, person: Person,
    lead: Option<Lead>, profile_path: Seq<char>, enrichment_path: Seq<char>,
    company_overview: Option<Seq<char>>, company_profile_context: Option<Seq<char>>)
    -> Seq<char> {
    (match company_overview {
        Some(o) => "# Company Overview\n\n"@ + o + "\n\n---\n\n"@,
        None => Seq::empty(),
    }) + (match company_profile_context {
        Some(c) => c + "---\n\n"@,
        None => Seq::empty(),
    }) + prompt + "\n\n# Person Information\n\nName: "@ + person.first_name@ + " "@
        + person.last_name@ + "\n"@ + spec_opt_field("Title: "@, person.title)
        + spec_opt_field("Email: "@, person.email) + spec_opt_field(
        "LinkedIn: "@,
        person.linkedin_url,
    ) + (match lead {
        Some(l) => "\n# Company Information\n\nCompany: "@ + l.company_name@ + "\n"@
            + spec_opt_field("Website: "@, l.website),
        None => Seq::empty(),
    }) + "\n# Output Files\n\nWrite the person profile to: "@ + profile_path
        + "\n\nAdditionally, write structured enrichment data to: "@ + enrichment_path
        + "\n\n"@ + PERSON_ENRICHMENT_SCHEMA@ + "\n"@
}

/// Builds the full person research prompt handed to the child.
#[verifier::rlimit(80)]
pub fn build_person_research_prompt(prompt: &str, person: &Person, lead: Option<&Lead>,
    profile_path: &str, enrichment_path: &str, company_overview: Option<&str>,
    company_profile_context: Option<&str>) -> (r: String)
    ensures
        r@ == spec_build_person_research_prompt(
            prompt@,
            *person,
            match lead {
                Some(l) => Some(*l),
                None => None,
            },
            profile_path@,
            enrichment_path@,
            match company_overview {
                Some(o) => Some(o@),
                None => None,
            },
            match company_profile_context {
                Some(c) => Some(c@),
                None => None,
            },
        ),
{
    let mut s = String::new();
    let ghost mut g: Seq<char> = Seq::empty();
    if let Some(o) = company_overview {
        s.append("# Company Overview\n\n");
        s.append(o);
        s.append("\n\n---\n\n");
    }
    proof {
        g = g + (match company_overview {
            Some(o) => "# Company Overview\n\n"@ + o@ + "\n\n---\n\n"@,
            None => Seq::empty(),
        });
        assert(s@ =~= g);
    }
    if let Some(c) = company_profile_context {
        s.append(c);
        s.append("---\n\n");
    }
    proof {
        g = g + (match company_profile_context {
            Some(c) => c@ + "---\n\n"@,
            None => Seq::empty(),
        });
        assert(s@ =~= g);
    }
    s.append(prompt);
    s.append("\n\n# Person Information\n\nName: ");
    s.append(person.first_name.as_str());
    s.append(" ");
    s.append(person.last_name.as_str());
    s.append("\n");
    append_opt_field(&mut s, "Title: ", &person.title);
    append_opt_field(&mut s, "Email: ", &person.email);
    append_opt_field(&mut s, "LinkedIn: ", &person.linkedin_url);
    proof {
        g = g + prompt@ + "\n\n# Person Information\n\nName: "@ + person.first_name@ + " "@
            + person.last_name@ + "\n"@ + spec_opt_field("Title: "@, person.title)
            + spec_opt_field("Email: "@, person.email) + spec_opt_field(
            "LinkedIn: "@,
            person.linkedin_url,
        );
        assert(s@ =~= g);
    }
    if let Some(l) = lead {
        s.append("\n# Company Information\n\nCompany: ");
        s.append(l.company_name.as_str());
        s.append("\n");
        append_opt_field(&mut s, "Website: ", &l.website);
    }
    proof {
        g = g + (match lead {
            Some(l) => "\n# Company Information\n\nCompany: "@ + l.company_name@ + "\n"@
                + spec_opt_field("Website: "@, l.website),
            None => Seq::empty(),
        });
        assert(s@ =~= g);
    }
    s.append("\n# Output Files\n\nWrite the person profile to: ");
    s.append(profile_path);
    s.append("\n\nAdditionally, write structured enrichment data to: ");
    s.append(enrichment_path);
    s.append("\n\n");
    s.append(PERSON_ENRICHMENT_SCHEMA);
    s.append("\n");
    s
}

/// A field rendered with a placeholder where it is absent.
pub open spec fn spec_or_na(v: Option<String>) -> Seq<char> {
    match v {
        Some(x) => x@,
        None => "N/A"@,
    }
}

fn append_or_na(s: &mut String, v: &Option<String>)
    ensures
        final(s)@ == old(s)@ + spec_or_na(*v),
{
    match v {
        Some(x) => s.append(x.as_str()),
        None => s.append("N/A"),
    }
}

/// A numeric field rendered with a placeholder where it is absent.
pub open spec fn spec_num_or_na(v: Option<i64>) -> Seq<char> {
    match v {
        Some(x) => spec_i64_string(x as int),
        None => "N/A"@,
    }
}

fn append_num_or_na(s: &mut String, v: &Option<i64>)
    ensures
        final(s)@ == old(s)@ + spec_num_or_na(*v),
{
    match v {
        Some(x) => {
            let t = i64_to_string(*x);
            s.append(t.as_str());
        },
        None => s.append("N/A"),
    }
}

/// One key person's line in a scoring context, with a bounded excerpt of
/// their research profile.
pub open spec fn spec_person_line(p: Person) -> Seq<char> {
    "\n  - "@ + p.first_name@ + " "@ + p.last_name@ + ", "@ + (match p.title {
        Some(t) => t@,
        None => "Unknown title"@,
    }) + " ("@ + (match p.email {
        Some(e) => e@,
        None => "No email"@,
    }) + ", "@ + (match p.linkedin_url {
        Some(l) => l@,
        None => "No LinkedIn"@,
    }) + ")"@ + (match p.person_profile {
        Some(pr) => "\n    Profile: "@ + (if pr@.len() > 200 {
            pr@.subrange(0, 200) + "..."@
        } else {
            pr@
        }),
        None => Seq::empty(),
    })
}

/// The people section of a scoring context, one line per person in order.
pub open spec fn spec_people_context(people: Seq<Person>) -> Seq<char>
    decreases people.len(),
{
    if people.len() == 0 {
        Seq::empty()
    } else {
        spec_people_context(people.drop_last()) + spec_person_line(people.last())
    }
}

/// Appends one key person's line, with the bounded profile excerpt.
#[verifier::rlimit(80)]
fn append_person_line(s: &mut String, p: &Person)
    ensures
        final(s)@ == old(s)@ + spec_person_line(*p),
{
    s.append("\n  - ");
    s.append(p.first_name.as_str());
    s.append(" ");
    s.append(p.last_name.as_str());
    s.append(", ");
    match &p.title {
        Some(t) => s.append(t.as_str()),
        None => s.append("Unknown title"),
    }
    s.append(" (");
    match &p.email {
        Some(e) => s.append(e.as_str()),
        None => s.append("No email"),
    }
    s.append(", ");
    match &p.linkedin_url {
        Some(l) => s.append(l.as_str()),
        None => s.append("No LinkedIn"),
    }
    s.append(")");
    if let Some(pr) = &p.person_profile {
        s.append("\n    Profile: ");
        if pr.as_str().unicode_len() > 200 {
            s.append(pr.as_str().substring_char(0, 200));
            s.append("...");
        } else {
            s.append(pr.as_str());
        }
    }
    proof {
        assert(final(s)@ =~= old(s)@ + spec_person_line(*p));
    }
}

/// The whole lead context a scoring prompt quotes: the company's facts
/// with placeholders, its research profile, and its key people.
pub open spec fn spec_format_lead_context(lead: Lead, people: Seq<Person>) -> Seq<char> {
    "Company Name: "@ + lead.company_name@ + "\nWebsite: "@ + spec_or_na(lead.website)
        + "\nIndustry: "@ + spec_or_na(lead.industry) + "\nSub-Industry: "@ + spec_or_na(
        lead.sub_industry,
    ) + "\nEmployees: "@ + spec_num_or_na(lead.employees) + "\nEmployee Range: "@
        + spec_or_na(lead.employee_range) + "\nRevenue: "@ + spec_num_or_na(lead.revenue)
        + "\nRevenue Range: "@ + spec_or_na(lead.revenue_range) + "\nLinkedIn: "@
        + spec_or_na(lead.company_linkedin_url) + "\nCity: "@ + spec_or_na(lead.city)
        + "\nState: "@ + spec_or_na(lead.state) + "\nCountry: "@ + spec_or_na(lead.country)
        + (match lead.company_profile {
        Some(p) => "\n\nCompany Research Profile:\n"@ + p@,
        None => Seq::empty(),
    }) + (if people.len() > 0 {
        "\n\nKey People ("@ + spec_i64_string(people.len() as int) + "):"@
            + spec_people_context(people)
    } else {
        Seq::empty()
    })
}

/// Builds the lead context quoted inside a scoring prompt.
#[verifier::rlimit(80)]
pub fn format_lead_context(lead: &Lead, people: &Vec<Person>) -> (r: String)
    requires
        people@.len() <= 0x7fff_ffff_ffff_ffff,
    ensures
        r@ == spec_format_lead_context(*lead, people@),
{
    let mut s = String::new();
    s.append("Company Name: ");
    s.append(lead.company_name.as_str());
    s.append("\nWebsite: ");
    append_or_na(&mut s, &lead.website);
    s.append("\nIndustry: ");
    append_or_na(&mut s, &lead.industry);
    s.append("\nSub-Industry: ");
    append_or_na(&mut s, &lead.sub_industry);
    s.append("\nEmployees: ");
    append_num_or_na(&mut s, &lead.employees);
    s.append("\nEmployee Range: ");
    append_or_na(&mut s, &lead.employee_range);
    s.append("\nRevenue: ");
    append_num_or_na(&mut s, &lead.revenue);
    s.append("\nRevenue Range: ");
    append_or_na(&mut s, &lead.revenue_range);
    s.append("\nLinkedIn: ");
    append_or_na(&mut s, &lead.company_linkedin_url);
    s.append("\nCity: ");
    append_or_na(&mut s, &lead.city);
    s.append("\nState: ");
    append_or_na(&mut s, &lead.state);
    s.append("\nCountry: ");
    append_or_na(&mut s, &lead.country);
    if let Some(p) = &lead.company_profile {
        s.append("\n\nCompany Research Profile:\n");
        s.append(p.as_str());
    }
    let ghost head = s@;
    if people.len() > 0 {
        s.append("\n\nKey People (");
        let count = i64_to_string(people.len() as i64);
        s.append(count.as_str());
        s.append("):");
        let ghost mid = s@;
        let mut i: usize = 0;
        while i < people.len()
            invariant
                i <= people@.len(),
                s@ == mid + spec_people_context(people@.subrange(0, i as int)),
            decreases people@.len() - i,
        {
            proof {
                assert(people@.subrange(0, i + 1 as int).drop_last()
                    =~= people@.subrange(0, i as int));
                assert(people@.subrange(0, i + 1 as int).last() == people@[i as int]);
            }
            append_person_line(&mut s, &people[i]);
            i += 1;
        }
        proof {
            assert(people@.subrange(0, people@.len() as int) =~= people@);
        }
    }
    proof {
        assert(s@ =~= spec_format_lead_context(*lead, people@));
    }
    s
}

/// The conversation prompt: the caller's context, the person and company
/// sections, the instructions, and where to save the topics.
pub open spec fn spec_build_conversation_prompt(conversation_prompt: Seq<char>,
    person: Person, lead: Option<Lead>, output_path: Seq<char>,
    what_we_do: Option<Seq<char>>) -> Seq<char> {
    (match what_we_do {
        Some(w) => "<WhatWeDo>\n"@ + w + "\n</WhatWeDo>\n\n"@,
        None => Seq::empty(),
    }) + "<TargetPerson>\nName: "@ + person.first_name@ + " "@ + person.last_name@
        + "\nTitle: "@ + spec_or_na(person.title) + "\nEmail: "@ + spec_or_na(person.email)
        + "\nLinkedIn: "@ + spec_or_na(person.linkedin_url) + "\nManagement Level: "@
        + spec_or_na(person.management_level) + "\nYear Joined: "@ + spec_num_or_na(
        person.year_joined,
    ) + (match person.person_profile {
        Some(p) => "\n\nPerson Research Profile:\n"@ + p@,
        None => Seq::empty(),
    }) + "\n</TargetPerson>\n\n<TargetCompany>\n"@ + (match lead {
        Some(l) => "Company Name: "@ + l.company_name@ + "\nWebsite: "@ + spec_or_na(
            l.website,
        ) + "\nIndustry: "@ + spec_or_na(l.industry) + (match l.company_profile {
            Some(p) => "\n\nCompany Research Profile:\n"@ + p@,
            None => Seq::empty(),
        }),
        None => "No company associated"@,
    }) + "\n</TargetCompany>\n\n<ConversationInstructions>\n"@ + conversation_prompt
        + "\n</ConversationInstructions>\n\n<OutputRequirements>\nSave conversation topics to: "@
        + output_path
        + "\nFormat: Markdown document with talking points and engagement strategies.\n</OutputRequirements>\n"@
}

/// Builds the full conversation prompt handed to the child.
#[verifier::rlimit(80)]
pub fn build_conversation_prompt(conversation_prompt: &str, person: &Person,
    lead: Option<&Lead>, output_path: &str, what_we_do: Option<&str>) -> (r: String)
    ensures
        r@ == spec_build_conversation_prompt(
            conversation_prompt@,
            *person,
            match lead {
                Some(l) => Some(*l),
                None => None,
            },
            output_path@,
            match what_we_do {
                Some(w) => Some(w@),
                None => None,
            },
        ),
{
    let mut s = String::new();
    let ghost mut g: Seq<char> = Seq::empty();
    if let Some(w) = what_we_do {
        s.append("<WhatWeDo>\n");
        s.append(w);
        s.append("\n</WhatWeDo>\n\n");
    }
    proof {
        g = g + (match what_we_do {
            Some(w) => "<WhatWeDo>\n"@ + w@ + "\n</WhatWeDo>\n\n"@,
            None => Seq::empty(),
        });
        assert(s@ =~= g);
    }
    s.append("<TargetPerson>\nName: ");
    s.append(person.first_name.as_str());
    s.append(" ");
    s.append(person.last_name.as_str());
    s.append("\nTitle: ");
    append_or_na(&mut s, &person.title);
    s.append("\nEmail: ");
    append_or_na(&mut s, &person.email);
    s.append("\nLinkedIn: ");
    append_or_na(&mut s, &person.linkedin_url);
    s.append("\nManagement Level: ");
    append_or_na(&mut s, &person.management_level);
    s.append("\nYear Joined: ");
    append_num_or_na(&mut s, &person.year_joined);
    proof {
        g = g + "<TargetPerson>\nName: "@ + person.first_name@ + " "@ + person.last_name@
            + "\nTitle: "@ + spec_or_na(person.title) + "\nEmail: "@ + spec_or_na(
            person.email,
        ) + "\nLinkedIn: "@ + spec_or_na(person.linkedin_url) + "\nManagement Level: "@
            + spec_or_na(person.management_level) + "\nYear Joined: "@ + spec_num_or_na(
            person.year_joined,
        );
        assert(s@ =~= g);
    }
    if let Some(p) = &person.person_profile {
        s.append("\n\nPerson Research Profile:\n");
        s.append(p.as_str());
    }
    proof {
        g = g + (if person.person_profile is Some {
            "\n\nPerson Research Profile:\n"@ + (person.person_profile->0)@
        } else {
            Seq::empty()
        });
        assert(s@ =~= g);
    }
    s.append("\n</TargetPerson>\n\n<TargetCompany>\n");
    match lead {
        Some(l) => {
            s.append("Company Name: ");
            s.append(l.company_name.as_str());
            s.append("\nWebsite: ");
            append_or_na(&mut s, &l.website);
            s.append("\nIndustry: ");
            append_or_na(&mut s, &l.industry);
            if let Some(p) = &l.company_profile {
                s.append("\n\nCompany Research Profile:\n");
                s.append(p.as_str());
            }
        },
        None => {
            s.append("No company associated");
        },
    }
    proof {
        g = g + "\n</TargetPerson>\n\n<TargetCompany>\n"@ + (match lead {
            Some(l) => "Company Name: "@ + l.company_name@ + "\nWebsite: "@ + spec_or_na(
                l.website,
            ) + "\nIndustry: "@ + spec_or_na(l.industry) + (if l.company_profile is Some {
                "\n\nCompany Research Profile:\n"@ + (l.company_profile->0)@
            } else {
                Seq::empty()
            }),
            None => "No company associated"@,
        });
        assert(s@ =~= g);
    }
    s.append("\n</TargetCompany>\n\n<ConversationInstructions>\n");
    s.append(conversation_prompt);
    s.append(
        "\n</ConversationInstructions>\n\n<OutputRequirements>\nSave conversation topics to: ",
    );
    s.append(output_path);
    s.append(
        "\nFormat: Markdown document with talking points and engagement strategies.\n</OutputRequirements>\n",
    );
    s
}

/// The profile-analysis prompt: the prompt text, the company's three given
/// facts, and where to write the analysis and enrichment files.
pub open spec fn spec_build_company_profile_prompt(prompt: Seq<char>, company_name: Seq<char>,
    product_name: Seq<char>, website: Seq<char>, profile_path: Seq<char>,
    enrichment_path: Seq<char>) -> Seq<char> {
    prompt + "\n\n# Company Information\n\nCompany Name: "@ + company_name
        + "\nProduct Name: "@ + product_name + "\nWebsite: "@ + website
        + "\n\n## Output File Paths\n\n- Profile analysis: "@ + profile_path
        + "\n- Enrichment data: "@ + enrichment_path
}

/// Builds the profile-analysis prompt handed to the child.
pub fn build_company_profile_prompt(prompt: &str, company_name: &str, product_name: &str,
    website: &str, profile_path: &str, enrichment_path: &str) -> (r: String)
    ensures
        r@ == spec_build_company_profile_prompt(
            prompt@,
            company_name@,
            product_name@,
            website@,
            profile_path@,
            enrichment_path@,
        ),
{
    let mut s = String::new();
    s.append(prompt);
    s.append("\n\n# Company Information\n\nCompany Name: ");
    s.append(company_name);
    s.append("\nProduct Name: ");
    s.append(product_name);
    s.append("\nWebsite: ");
    s.append(website);
    s.append("\n\n## Output File Paths\n\n- Profile analysis: ");
    s.append(profile_path);
    s.append("\n- Enrichment data: ");
    s.append(enrichment_path);
    proof {
        assert(s@ =~= spec_build_company_profile_prompt(
            prompt@,
            company_name@,
            product_name@,
            website@,
            profile_path@,
            enrichment_path@,
        ));
    }
    s
}

/// Where one company research run writes its files, under the app data
/// directory: a per-entity directory named from the lead's id and slug.
pub struct ResearchPaths {
    pub slug: String,
    pub dir: String,
    pub profile_path: String,
    pub people_path: String,
    pub enrichment_path: String,
}

/// Lays out the output paths of a company research run.
pub fn company_research_paths(data_dir: &str, lead_id: i64, company_name: &str)
    -> (r: ResearchPaths)
    ensures
        r.slug@ == spec_slug_of(company_name@),
        r.dir@ == data_dir@ + "/research/company_"@ + spec_i64_string(lead_id as int) + "_"@
            + spec_slug_of(company_name@),
        r.profile_path@ == r.dir@ + "/company_profile.md"@,
        r.people_path@ == r.dir@ + "/people.json"@,
        r.enrichment_path@ == r.dir@ + "/enrichment.json"@,
{
    let slug = slug_of(company_name);
    let mut dir = str_of(data_dir);
    dir.append("/research/company_");
    let idtext = i64_to_string(lead_id);
    dir.append(idtext.as_str());
    dir.append("_");
    dir.append(slug.as_str());
    let mut profile_path = dir.clone();
    profile_path.append("/company_profile.md");
    let mut people_path = dir.clone();
    people_path.append("/people.json");
    let mut enrichment_path = dir.clone();
    enrichment_path.append("/enrichment.json");
    ResearchPaths { slug, dir, profile_path, people_path, enrichment_path }
}

/// Where one person research run writes its files.
pub fn person_research_paths(data_dir: &str, person_id: i64, person_name: &str)
    -> (r: ResearchPaths)
    ensures
        r.slug@ == spec_slug_of(person_name@),
        r.dir@ == data_dir@ + "/research/person_"@ + spec_i64_string(person_id as int) + "_"@
            + spec_slug_of(person_name@),
        r.profile_path@ == r.dir@ + "/person_profile.md"@,
        r.people_path@ == r.dir@,
        r.enrichment_path@ == r.dir@ + "/enrichment.json"@,
{
    let slug = slug_of(person_name);
    let mut dir = str_of(data_dir);
    dir.append("/research/person_");
    let idtext = i64_to_string(person_id);
    dir.append(idtext.as_str());
    dir.append("_");
    dir.append(slug.as_str());
    let mut profile_path = dir.clone();
    profile_path.append("/person_profile.md");
    let people_path = dir.clone();
    let mut enrichment_path = dir.clone();
    enrichment_path.append("/enrichment.json");
    ResearchPaths { slug, dir, profile_path, people_path, enrichment_path }
}

/// Where one scoring run writes its output file.
pub fn scoring_output_path(data_dir: &str, lead_id: i64, company_name: &str) -> (r: String)
    ensures
        r@ == data_dir@ + "/scoring/score_"@ + spec_i64_string(lead_id as int) + "_"@
            + spec_slug_of(company_name@) + ".json"@,
{
    let slug = slug_of(company_name);
    let mut p = str_of(data_dir);
    p.append("/scoring/score_");
    let idtext = i64_to_string(lead_id);
    p.append(idtext.as_str());
    p.append("_");
    p.append(slug.as_str());
    p.append(".json");
    p
}

/// Where one conversation run writes its output file.
pub fn conversation_output_path(data_dir: &str, person_id: i64, person_name: &str)
    -> (r: String)
    ensures
        r@ == data_dir@ + "/conversations/conversation_"@ + spec_i64_string(person_id as int)
            + "_"@ + spec_slug_of(person_name@) + ".md"@,
{
    let slug = slug_of(person_name);
    let mut p = str_of(data_dir);
    p.append("/conversations/conversation_");
    let idtext = i64_to_string(person_id);
    p.append(idtext.as_str());
    p.append("_");
    p.append(slug.as_str());
    p.append(".md");
    p
}

/// Where the profile analysis writes its files.
pub fn company_profile_paths(data_dir: &str) -> (r: (String, String))
    ensures
        r.0@ == data_dir@ + "/company_profile/profile_analysis.json"@,
        r.1@ == data_dir@ + "/company_profile/enrichment.json"@,
{
    let mut a = str_of(data_dir);
    a.append("/company_profile/profile_analysis.json");
    let mut b = str_of(data_dir);
    b.append("/company_profile/enrichment.json");
    (a, b)
}

/// One bullet of a labelled pair: the first field as the bullet, the
/// second indented under it; an entry without the first field is skipped.
pub open spec fn spec_pair_line(p: PairFields) -> Seq<char> {
    match p.a {
        Some(a) => "- "@ + a@ + "\n"@ + (if p.b is Some {
            "  "@ + (p.b->0)@ + "\n"@
        } else {
            Seq::empty()
        }),
        None => Seq::empty(),
    }
}

pub open spec fn spec_pair_lines(arr: Seq<PairFields>) -> Seq<char>
    decreases arr.len(),
{
    if arr.len() == 0 {
        Seq::empty()
    } else {
        spec_pair_lines(arr.drop_last()) + spec_pair_line(arr.last())
    }
}

/// A headed section of labelled pairs; nothing when the array is missing,
/// not an array, or empty.
pub open spec fn spec_pair_section(header: Seq<char>, pairs: Option<Seq<PairFields>>)
    -> Seq<char> {
    match pairs {
        Some(arr) => if arr.len() > 0 {
            header + spec_pair_lines(arr) + "\n"@
        } else {
            Seq::empty()
        },
        None => Seq::empty(),
    }
}

/// One market-insight bullet: the content tagged with its category, or
/// `General` where none is named; an entry without content is skipped.
pub open spec fn spec_insight_line(p: PairFields) -> Seq<char> {
    match p.b {
        Some(content) => "- ["@ + (match p.a {
            Some(c) => c@,
            None => "General"@,
        }) + "] "@ + content@ + "\n"@,
        None => Seq::empty(),
    }
}

pub open spec fn spec_insight_lines(arr: Seq<PairFields>) -> Seq<char>
    decreases arr.len(),
{
    if arr.len() == 0 {
        Seq::empty()
    } else {
        spec_insight_lines(arr.drop_last()) + spec_insight_line(arr.last())
    }
}

pub open spec fn spec_insight_section(pairs: Option<Seq<PairFields>>) -> Seq<char> {
    match pairs {
        Some(arr) => if arr.len() > 0 {
            "**Market Insights:**\n"@ + spec_insight_lines(arr) + "\n"@
        } else {
            Seq::empty()
        },
        None => Seq::empty(),
    }
}

fn append_pair_section(s: &mut String, header: &str, pairs: &Option<Vec<PairFields>>)
    ensures
        final(s)@ == old(s)@ + spec_pair_section(
            header@,
            match *pairs {
                Some(v) => Some(v@),
                None => None,
            },
        ),
{
    if let Some(arr) = pairs {
        if arr.len() > 0 {
            s.append(header);
            let mut i: usize = 0;
            while i < arr.len()
                invariant
                    i <= arr@.len(),
                    s@ == old(s)@ + header@ + spec_pair_lines(arr@.subrange(0, i as int)),
                decreases arr@.len() - i,
            {
                proof {
                    assert(arr@.subrange(0, i + 1 as int).drop_last()
                        =~= arr@.subrange(0, i as int));
                    assert(arr@.subrange(0, i + 1 as int).last() == arr@[i as int]);
                }
                let p = &arr[i];
                if let Some(a) = &p.a {
                    s.append("- ");
                    s.append(a.as_str());
                    s.append("\n");
                    if let Some(b) = &p.b {
                        s.append("  ");
                        s.append(b.as_str());
                        s.append("\n");
                    }
                }
                proof {
                    assert(s@ =~= old(s)@ + header@ + spec_pair_lines(
                        arr@.subrange(0, i + 1 as int),
                    ));
                }
                i += 1;
            }
            s.append("\n");
            proof {
                assert(arr@.subrange(0, arr@.len() as int) =~= arr@);
                assert(final(s)@ =~= old(s)@ + spec_pair_section(header@, Some(arr@)));
            }
        }
    }
}

fn append_insight_section(s: &mut String, pairs: &Option<Vec<PairFields>>)
    ensures
        final(s)@ == old(s)@ + spec_insight_section(
            match *pairs {
                Some(v) => Some(v@),
                None => None,
            },
        ),
{
    if let Some(arr) = pairs {
        if arr.len() > 0 {
            s.append("**Market Insights:**\n");
            let mut i: usize = 0;
            while i < arr.len()
                invariant
                    i <= arr@.len(),
                    s@ == old(s)@ + "**Market Insights:**\n"@ + spec_insight_lines(
                        arr@.subrange(0, i as int),
                    ),
                decreases arr@.len() - i,
            {
                proof {
                    assert(arr@.subrange(0, i + 1 as int).drop_last()
                        =~= arr@.subrange(0, i as int));
                    assert(arr@.subrange(0, i + 1 as int).last() == arr@[i as int]);
                }
                let p = &arr[i];
                if let Some(content) = &p.b {
                    s.append("- [");
                    match &p.a {
                        Some(c) => s.append(c.as_str()),
                        None => s.append("General"),
                    }
                    s.append("] ");
                    s.append(content.as_str());
                    s.append("\n");
                }
                proof {
                    assert(s@ =~= old(s)@ + "**Market Insights:**\n"@ + spec_insight_lines(
                        arr@.subrange(0, i + 1 as int),
                    ));
                }
                i += 1;
            }
            s.append("\n");
            proof {
                assert(arr@.subrange(0, arr@.len() as int) =~= arr@);
                assert(final(s)@ =~= old(s)@ + spec_insight_section(Some(arr@)));
            }
        }
    }
}

/// The seller's own profile as prompt context: the three names, then each
/// analysis section that decodes and is non-empty, in the standing order.
pub open spec fn spec_format_company_profile_context(profile: CompanyProfile) -> Seq<char> {
    "## Our Company Profile\n\n**Company:** "@ + profile.company_name@ + "\n**Product:** "@
        + profile.product_name@ + "\n**Website:** "@ + profile.website@ + "\n\n"@
        + spec_pair_section(
        "**Target Audience:**\n"@,
        pair_array_of(profile.target_audience@, "segment"@, "description"@),
    ) + spec_pair_section(
        "**Unique Selling Propositions:**\n"@,
        pair_array_of(profile.usps@, "headline"@, "explanation"@),
    ) + (if profile.marketing_narrative@.len() > 0 {
        "**Marketing Narrative:**\n"@ + profile.marketing_narrative@ + "\n\n"@
    } else {
        Seq::empty()
    }) + (match sales_fields_of(profile.sales_narrative@) {
        Some(sales) => (match sales.elevator_pitch {
            Some(pitch) => if pitch@.len() > 0 {
                "**Sales Narrative - Elevator Pitch:**\n"@ + pitch@ + "\n\n"@
            } else {
                Seq::empty()
            },
            None => Seq::empty(),
        }) + spec_pair_section("**Sales Talking Points:**\n"@, Some(sales.talking_points@)),
        None => Seq::empty(),
    }) + spec_pair_section(
        "**Competitors:**\n"@,
        pair_array_of(profile.competitors@, "name"@, ""@),
    ) + spec_insight_section(pair_array_of(profile.market_insights@, "category"@, "content"@))
}

/// Formats the seller's own profile for quoting inside research prompts.
#[verifier::rlimit(100)]
pub fn format_company_profile_context(profile: &CompanyProfile) -> (r: String)
    ensures
        r@ == spec_format_company_profile_context(*profile),
{
    let mut s = String::from_str("## Our Company Profile\n\n**Company:** ");
    s.append(profile.company_name.as_str());
    s.append("\n**Product:** ");
    s.append(profile.product_name.as_str());
    s.append("\n**Website:** ");
    s.append(profile.website.as_str());
    s.append("\n\n");
    let ghost mut g: Seq<char> = "## Our Company Profile\n\n**Company:** "@
        + profile.company_name@ + "\n**Product:** "@ + profile.product_name@
        + "\n**Website:** "@ + profile.website@ + "\n\n"@;
    proof {
        assert(s@ =~= g);
    }
    let audience = parse_pair_array(profile.target_audience.as_str(), "segment", "description");
    append_pair_section(&mut s, "**Target Audience:**\n", &audience);
    proof {
        g = g + spec_pair_section(
            "**Target Audience:**\n"@,
            pair_array_of(profile.target_audience@, "segment"@, "description"@),
        );
        assert(s@ =~= g);
    }
    let usps = parse_pair_array(profile.usps.as_str(), "headline", "explanation");
    append_pair_section(&mut s, "**Unique Selling Propositions:**\n", &usps);
    proof {
        g = g + spec_pair_section(
            "**Unique Selling Propositions:**\n"@,
            pair_array_of(profile.usps@, "headline"@, "explanation"@),
        );
        assert(s@ =~= g);
    }
    if !profile.marketing_narrative.as_str().is_empty() {
        s.append("**Marketing Narrative:**\n");
        s.append(profile.marketing_narrative.as_str());
        s.append("\n\n");
    }
    proof {
        g = g + (if profile.marketing_narrative@.len() > 0 {
            "**Marketing Narrative:**\n"@ + profile.marketing_narrative@ + "\n\n"@
        } else {
            Seq::empty()
        });
        assert(s@ =~= g);
    }
    match parse_sales_narrative(profile.sales_narrative.as_str()) {
        Some(sales) => {
            let ghost gs = sales_fields_of(profile.sales_narrative@)->0;
            if let Some(pitch) = &sales.elevator_pitch {
                if !pitch.as_str().is_empty() {
                    s.append("**Sales Narrative - Elevator Pitch:**\n");
                    s.append(pitch.as_str());
                    s.append("\n\n");
                }
            }
            proof {
                g = g + (match gs.elevator_pitch {
                    Some(pitch) => if pitch@.len() > 0 {
                        "**Sales Narrative - Elevator Pitch:**\n"@ + pitch@ + "\n\n"@
                    } else {
                        Seq::empty()
                    },
                    None => Seq::empty(),
                });
                assert(s@ =~= g);
            }
            let points = Some(sales.talking_points);
            append_pair_section(&mut s, "**Sales Talking Points:**\n", &points);
            proof {
                g = g + spec_pair_section("**Sales Talking Points:**\n"@, Some(
                    gs.talking_points@,
                ));
                assert(s@ =~= g);
            }
        },
        None => {},
    }
    let competitors = parse_pair_array(profile.competitors.as_str(), "name", "");
    append_pair_section(&mut s, "**Competitors:**\n", &competitors);
    proof {
        g = g + spec_pair_section(
            "**Competitors:**\n"@,
            pair_array_of(profile.competitors@, "name"@, ""@),
        );
        assert(s@ =~= g);
    }
    let insights = parse_pair_array(profile.market_insights.as_str(), "category", "content");
    append_insight_section(&mut s, &insights);
    proof {
        g = g + spec_insight_section(pair_array_of(profile.market_insights@, "category"@,
            "content"@));
        assert(s@ =~= g);
        assert(g == spec_format_company_profile_context(*profile));
    }
    s
}

/// The seller's profile context for prompts, if a completed analysis is
/// stored; an unfinished or missing profile contributes nothing.
pub fn get_company_profile_context(store: &crate::store::Store) -> (r: Option<String>)
    ensures
        match store.company_profile {
            Some(p) => if p.research_status == crate::schema::ResearchStatus::Completed {
                r matches Some(c) && c@ == spec_format_company_profile_context(p)
            } else {
                r is None
            },
            None => r is None,
        },
{
    match store.get_company_profile() {
        Some(p) => {
            if matches!(p.research_status, crate::schema::ResearchStatus::Completed) {
                Some(format_company_profile_context(p))
            } else {
                None
            }
        },
        None => None,
    }
}

} // verus!
