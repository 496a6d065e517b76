use vstd::prelude::*;
use crate::enrichment::{LeadEnrichment, PersonEnrichment};
use crate::schema::clone_opt_string;

verus! {

/// The fields the stream classifier reads from one line of worker output,
/// lifted out of the line's JSON; absent fields stay `None`.
#[derive(Debug)]
pub struct EventFields {
    pub event_type: Option<String>,
    pub subtype: Option<String>,
    pub is_error: Option<bool>,
    pub session_id: Option<String>,
    pub model: Option<String>,
    pub content_block_name: Option<String>,
}

/// One block of an assistant message's content, reduced to the two fields
/// the tool-name scan reads.
#[derive(Debug)]
pub struct ContentBlockInfo {
    pub block_type: Option<String>,
    pub name: Option<String>,
}

/// One entry of a research run's people output, reduced to its plain fields.
#[derive(Debug)]
pub struct PersonFields {
    pub first_name: Option<String>,
    pub last_name: Option<String>,
    pub name: Option<String>,
    pub email: Option<String>,
    pub title: Option<String>,
    pub linkedin_url: Option<String>,
    pub management_level: Option<String>,
    pub year_joined: Option<i64>,
}

/// The fields a scoring run's output carries; each is `None` where the JSON
/// lacks it. The nested results and breakdown are kept in their serialized
/// form.
#[derive(Debug)]
pub struct ScoreFields {
    pub passes_requirements: Option<bool>,
    pub has_passes_requirements: bool,
    pub requirement_results: Option<String>,
    pub total_score: Option<i64>,
    pub score_breakdown: Option<String>,
    pub tier: Option<String>,
    pub scoring_notes: Option<String>,
}

/// The fields a company-profile analysis carries; nested values are kept in
/// their serialized form, and `raw` is the whole object reserialized.
#[derive(Debug)]
pub struct CompanyProfileFields {
    pub target_audience: Option<String>,
    pub usps: Option<String>,
    pub sales_narrative: Option<String>,
    pub competitors: Option<String>,
    pub market_insights: Option<String>,
    pub marketing_narrative: Option<String>,
    pub raw: String,
}

/// What JSON-decoding a stream line yields: a function of the line alone.
pub uninterp spec fn stream_event_fields(line: Seq<char>) -> Option<EventFields>;

/// What the line's assistant-message content blocks are: a function of the
/// line alone.
pub uninterp spec fn message_blocks_of(line: Seq<char>) -> Seq<ContentBlockInfo>;

/// What JSON-decoding a people file yields: a function of the text alone.
pub uninterp spec fn people_json_of(text: Seq<char>) -> Option<Seq<PersonFields>>;

/// What JSON-decoding a lead enrichment file yields.
pub uninterp spec fn lead_enrichment_of(text: Seq<char>) -> Option<LeadEnrichment>;

/// What JSON-decoding a person enrichment file yields.
pub uninterp spec fn person_enrichment_of(text: Seq<char>) -> Option<PersonEnrichment>;

/// What JSON-decoding a scoring output yields.
pub uninterp spec fn score_json_of(text: Seq<char>) -> Option<ScoreFields>;

/// What JSON-decoding a company-profile analysis yields.
pub uninterp spec fn company_profile_json_of(text: Seq<char>) -> Option<CompanyProfileFields>;

/// Relies on serde_json::from_str: decodes one stream line as a JSON object
/// and lifts the classifier's fields; `None` when the line is not a JSON
/// object. The result depends on the line alone.
#[verifier::external_body]
pub fn extract_event_fields(line: &str) -> (r: Option<EventFields>)
    ensures
        r == stream_event_fields(line@),
{
    let v: serde_json::Value = serde_json::from_str(line).ok()?;
    if !v.is_object() {
        return None;
    }
    let s = |k: &str| v.get(k).and_then(|x| x.as_str()).map(String::from);
    Some(EventFields {
        event_type: s("type"),
        subtype: s("subtype"),
        is_error: v.get("is_error").and_then(|x| x.as_bool()),
        session_id: s("session_id"),
        model: s("model"),
        content_block_name: v.get("content_block").and_then(|x| x.get("name")).and_then(|x| x.as_str()).map(String::from),
    })
}

/// Relies on serde_json::from_str: lifts the line's `message.content` array
/// into plain per-block fields; empty when the line has no such array. The
/// result depends on the line alone.
#[verifier::external_body]
pub fn extract_message_blocks(line: &str) -> (r: Vec<ContentBlockInfo>)
    ensures
        r@ == message_blocks_of(line@),
{
    let v: serde_json::Value = match serde_json::from_str(line) {
        Ok(v) => v,
        Err(_) => return Vec::new(),
    };
    match v.get("message").and_then(|m| m.get("content")).and_then(|c| c.as_array()) {
        Some(arr) => arr.iter().map(|b| ContentBlockInfo {
            block_type: b.get("type").and_then(|x| x.as_str()).map(String::from),
            name: b.get("name").and_then(|x| x.as_str()).map(String::from),
        }).collect(),
        None => Vec::new(),
    }
}

/// Relies on serde_json::from_str: decodes a people file as a JSON array and
/// lifts each entry's plain fields; `None` when the text is not a JSON
/// array. The result depends on the text alone.
#[verifier::external_body]
pub fn parse_people_json(text: &str) -> (r: Option<Vec<PersonFields>>)
    ensures
        match (r, people_json_of(text@)) {
            (Some(v), Some(s)) => v@ == s,
            (None, None) => true,
            _ => false,
        },
{
    let v: Vec<serde_json::Value> = serde_json::from_str(text).ok()?;
    let s = |p: &serde_json::Value, k: &str| p.get(k).and_then(|x| x.as_str()).map(String::from);
    Some(v.iter().map(|p| PersonFields {
        first_name: s(p, "firstName"), last_name: s(p, "lastName"), name: s(p, "name"),
        email: s(p, "email"), title: s(p, "title"), linkedin_url: s(p, "linkedinUrl"),
        management_level: s(p, "managementLevel"),
        year_joined: p.get("yearJoined").and_then(|x| x.as_i64()),
    }).collect())
}

/// Relies on serde_json::from_str: decodes a lead enrichment file; `None`
/// when the text is not a JSON object. The result depends on the text alone.
#[verifier::external_body]
pub fn parse_lead_enrichment(text: &str) -> (r: Option<LeadEnrichment>)
    ensures
        r == lead_enrichment_of(text@),
{
    let v: serde_json::Value = serde_json::from_str(text).ok()?;
    if !v.is_object() {
        return None;
    }
    let s = |k: &str| v.get(k).and_then(|x| x.as_str()).map(String::from);
    let n = |k: &str| v.get(k).and_then(|x| x.as_i64());
    Some(LeadEnrichment {
        website: s("website"), industry: s("industry"), sub_industry: s("subIndustry"),
        employees: n("employees"), employee_range: s("employeeRange"), revenue: n("revenue"),
        revenue_range: s("revenueRange"), company_linkedin_url: s("companyLinkedinUrl"),
        city: s("city"), state: s("state"), country: s("country"),
    })
}

/// Relies on serde_json::from_str: decodes a person enrichment file; `None`
/// when the text is not a JSON object. The result depends on the text alone.
#[verifier::external_body]
pub fn parse_person_enrichment(text: &str) -> (r: Option<PersonEnrichment>)
    ensures
        r == person_enrichment_of(text@),
{
    let v: serde_json::Value = serde_json::from_str(text).ok()?;
    if !v.is_object() {
        return None;
    }
    let s = |k: &str| v.get(k).and_then(|x| x.as_str()).map(String::from);
    Some(PersonEnrichment {
        email: s("email"), title: s("title"), management_level: s("managementLevel"),
        linkedin_url: s("linkedinUrl"),
        year_joined: v.get("yearJoined").and_then(|x| x.as_i64()),
    })
}

/// Relies on serde_json::from_str and serde_json::to_string: decodes a
/// scoring output and lifts its fields, keeping the nested results in their
/// serialized form; `None` when the text is not valid JSON. The result
/// depends on the text alone.
#[verifier::external_body]
pub fn parse_score_json(text: &str) -> (r: Option<ScoreFields>)
    ensures
        r == score_json_of(text@),
{
    let v: serde_json::Value = serde_json::from_str(text).ok()?;
    let j = |k: &str| v.get(k).and_then(|x| serde_json::to_string(x).ok());
    let s = |k: &str| v.get(k).and_then(|x| x.as_str()).map(String::from);
    Some(ScoreFields {
        passes_requirements: v.get("passesRequirements").and_then(|x| x.as_bool()),
        has_passes_requirements: v.get("passesRequirements").is_some(),
        requirement_results: j("requirementResults"),
        total_score: v.get("totalScore").and_then(|x| x.as_i64()),
        score_breakdown: j("scoreBreakdown"), tier: s("tier"), scoring_notes: s("scoringNotes"),
    })
}

/// Relies on serde_json::from_str and serde_json::to_string: decodes a
/// company-profile analysis object, keeping nested values serialized; `None`
/// when the text is not a JSON object. The result depends on the text alone.
#[verifier::external_body]
pub fn parse_company_profile_json(text: &str) -> (r: Option<CompanyProfileFields>)
    ensures
        r == company_profile_json_of(text@),
{
    let v: serde_json::Value = serde_json::from_str(text).ok()?;
    if !v.is_object() {
        return None;
    }
    let j = |k: &str| v.get(k).and_then(|x| serde_json::to_string(x).ok());
    Some(CompanyProfileFields {
        target_audience: j("targetAudience"), usps: j("usps"),
        sales_narrative: j("salesNarrative"), competitors: j("competitors"),
        market_insights: j("marketInsights"),
        marketing_narrative: v.get("marketingNarrative").and_then(|x| x.as_str()).map(String::from),
        raw: serde_json::to_string(&v).unwrap_or_default(),
    })
}

/// One entry of a labelled JSON array, reduced to the two text fields a
/// context section reads.
#[derive(Debug)]
pub struct PairFields {
    pub a: Option<String>,
    pub b: Option<String>,
}

/// The seller's sales narrative, reduced to what prompt context quotes.
#[derive(Debug)]
pub struct SalesFields {
    pub elevator_pitch: Option<String>,
    pub talking_points: Vec<PairFields>,
}

/// What decoding a JSON array and lifting two keys from each entry yields:
/// a function of the text and the keys alone.
pub uninterp spec fn pair_array_of(text: Seq<char>, key_a: Seq<char>, key_b: Seq<char>)
    -> Option<Seq<PairFields>>;

/// What decoding a sales narrative yields.
pub uninterp spec fn sales_fields_of(text: Seq<char>) -> Option<SalesFields>;

/// Relies on serde_json::from_str: decodes a JSON array and lifts the two
/// given keys from each entry; `None` when the text is not a JSON array.
/// The result depends on the text and keys alone.
#[verifier::external_body]
pub fn parse_pair_array(text: &str, key_a: &str, key_b: &str) -> (r: Option<Vec<PairFields>>)
    ensures
        match (r, pair_array_of(text@, key_a@, key_b@)) {
            (Some(v), Some(s)) => v@ == s,
            (None, None) => true,
            _ => false,
        },
{
    let v: serde_json::Value = serde_json::from_str(text).ok()?;
    let arr = v.as_array()?;
    Some(arr.iter().map(|p| PairFields {
        a: p.get(key_a).and_then(|x| x.as_str()).map(String::from),
        b: p.get(key_b).and_then(|x| x.as_str()).map(String::from),
    }).collect())
}

/// Relies on serde_json::from_str: decodes a sales narrative object,
/// lifting the elevator pitch and the talking points' contents; `None`
/// when the text is not valid JSON. The result depends on the text alone.
#[verifier::external_body]
pub fn parse_sales_narrative(text: &str) -> (r: Option<SalesFields>)
    ensures
        match (r, sales_fields_of(text@)) {
            (Some(v), Some(s)) => v.elevator_pitch == s.elevator_pitch
                && v.talking_points@ == s.talking_points@,
            (None, None) => true,
            _ => false,
        },
{
    let v: serde_json::Value = serde_json::from_str(text).ok()?;
    let points = v.get("talkingPoints").and_then(|x| x.as_array()).map(|arr| {
        arr.iter().map(|p| PairFields {
            a: p.get("content").and_then(|x| x.as_str()).map(String::from),
            b: None,
        }).collect()
    }).unwrap_or_default();
    Some(SalesFields {
        elevator_pitch: v.get("elevatorPitch").and_then(|x| x.as_str()).map(String::from),
        talking_points: points,
    })
}

impl Clone for PairFields {
    fn clone(&self) -> (r: Self)
        ensures
            r == *self,
    {
        PairFields { a: clone_opt_string(&self.a), b: clone_opt_string(&self.b) }
    }
}

impl Clone for EventFields {
    fn clone(&self) -> (r: Self)
        ensures
            r == *self,
    {
        EventFields {
            event_type: clone_opt_string(&self.event_type),
            subtype: clone_opt_string(&self.subtype),
            is_error: self.is_error,
            session_id: clone_opt_string(&self.session_id),
            model: clone_opt_string(&self.model),
            content_block_name: clone_opt_string(&self.content_block_name),
        }
    }
}

impl Clone for PersonFields {
    fn clone(&self) -> (r: Self)
        ensures
            r == *self,
    {
        PersonFields {
            first_name: clone_opt_string(&self.first_name),
            last_name: clone_opt_string(&self.last_name),
            name: clone_opt_string(&self.name),
            email: clone_opt_string(&self.email),
            title: clone_opt_string(&self.title),
            linkedin_url: clone_opt_string(&self.linkedin_url),
            management_level: clone_opt_string(&self.management_level),
            year_joined: self.year_joined,
        }
    }
}

} // verus!
