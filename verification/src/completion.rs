use vstd::prelude::*;
use vstd::string::{StrSliceExecFns, StringExecFns};
use crate::enrichment::{LeadEnrichment, ParsedPersonData, PersonEnrichment};
use crate::events::{AppEvent, LeadScoredPayload, LeadUpdatedPayload, PeopleBulkCreatedPayload,
    PersonUpdatedPayload};
use crate::jsonio::{CompanyProfileFields, PersonFields, ScoreFields, company_profile_json_of,
    lead_enrichment_of, parse_company_profile_json, parse_lead_enrichment,
    parse_people_json, parse_person_enrichment, parse_score_json, people_json_of,
    person_enrichment_of, score_json_of};
use crate::result_parser::{JobMetadata, JobType};
use crate::schema::clone_opt_string;
use crate::schema::{CompanyProfile, Lead, LeadScore, Person, ResearchStatus, ScoringConfig};
use crate::store::{Store, configs_wf, spec_has_lead, spec_has_person,
    spec_lead_index, spec_person_index, spec_person_from_parsed, str_of};
use crate::stream::CompletionContext;
use crate::enrichment::spec_coalesce;
use crate::textutil::{find_char_from, find_sub_from, lemma_find_char_props, lemma_find_props,
    spec_find, spec_find_char};

verus! {

broadcast use vstd::string::group_string_axioms;

/// How far the completion handler has advanced for a job; each phase is
/// persisted before the next begins, so a crash can be classified exactly.
#[derive(Debug, Clone, Copy, PartialEq, Eq, Structural)]
pub enum CompletionPhase {
    Started,
    FilesVerified,
    ContentParsed,
    DatabaseUpdated,
    FilesCleanedUp,
    Completed,
    Failed,
}

impl CompletionPhase {
    /// The phase's name as written in the durable store.
    pub fn as_str(self) -> (r: &'static str)
        ensures
            r@ == self.spec_str(),
    {
        match self {
            CompletionPhase::Started => "started",
            CompletionPhase::FilesVerified => "files_verified",
            CompletionPhase::ContentParsed => "content_parsed",
            CompletionPhase::DatabaseUpdated => "database_updated",
            CompletionPhase::FilesCleanedUp => "files_cleaned_up",
            CompletionPhase::Completed => "completed",
            CompletionPhase::Failed => "failed",
        }
    }

    pub open spec fn spec_str(self) -> Seq<char> {
        match self {
            CompletionPhase::Started => "started"@,
            CompletionPhase::FilesVerified => "files_verified"@,
            CompletionPhase::ContentParsed => "content_parsed"@,
            CompletionPhase::DatabaseUpdated => "database_updated"@,
            CompletionPhase::FilesCleanedUp => "files_cleaned_up"@,
            CompletionPhase::Completed => "completed"@,
            CompletionPhase::Failed => "failed"@,
        }
    }

    /// The order of the success phases; `failed` stands outside it.
    pub open spec fn spec_rank(self) -> int {
        match self {
            CompletionPhase::Started => 0,
            CompletionPhase::FilesVerified => 1,
            CompletionPhase::ContentParsed => 2,
            CompletionPhase::DatabaseUpdated => 3,
            CompletionPhase::FilesCleanedUp => 4,
            CompletionPhase::Completed => 5,
            CompletionPhase::Failed => 6,
        }
    }
}

/// Why completion failed, with what a postmortem needs to know.
#[derive(Debug)]
pub enum CompletionError {
    FileNotFound(String),
    FileReadError(String, String),
    ParseError(String),
    DatabaseError(String),
    ValidationError(String),
}

/// What the caller learnt when it tried to read one output file.
#[derive(Debug)]
pub enum FileInput {
    Missing,
    Unreadable(String),
    Content(String),
}

/// The three output files once they are verified readable.
#[derive(Debug)]
pub struct VerifiedOutputs {
    pub primary_content: String,
    pub secondary_content: Option<String>,
    pub enrichment_content: Option<String>,
}

/// What `str::trim` leaves of a string: a function of its characters alone.
pub uninterp spec fn trim_of(s: Seq<char>) -> Seq<char>;

/// Relies on str::trim: strips leading and trailing whitespace; an empty
/// string stays empty.
#[verifier::external_body]
pub fn trim_str(s: &str) -> (r: &str)
    ensures
        r@ == trim_of(s@),
        s@.len() == 0 ==> r@.len() == 0,
{
    s.trim()
}

/// The conditions under which verification is owed to succeed: the primary
/// file was read and is not blank, and a configured secondary file was not
/// unreadable.
pub open spec fn spec_verify_admits(meta: JobMetadata, primary: FileInput,
    secondary: FileInput) -> bool {
    &&& primary matches FileInput::Content(c) && trim_of(c@).len() > 0
    &&& (meta.secondary_output_path is Some ==> !(secondary matches FileInput::Unreadable(_)))
}

/// How the assembled contents relate to the three read results.
pub open spec fn spec_verified_rel(meta: JobMetadata, primary: FileInput,
    secondary: FileInput, enrichment: FileInput, v: VerifiedOutputs) -> bool {
    &&& primary matches FileInput::Content(c) && trim_of(c@).len() > 0
        && v.primary_content == c
    &&& if meta.secondary_output_path is None {
        v.secondary_content is None
    } else {
        match (v.secondary_content, secondary) {
            (Some(a), FileInput::Content(b)) => a == b,
            (None, FileInput::Missing) => true,
            _ => false,
        }
    }
    &&& match v.enrichment_content {
        Some(a) => meta.enrichment_output_path is Some
            && enrichment == FileInput::Content(a),
        None => meta.enrichment_output_path is None
            || !(enrichment matches FileInput::Content(_)),
    }
}

/// Verifies the three read results and assembles the contents: exactly the
/// conditions above, with each failure reported as the original error, and
/// success owed whenever the inputs admit it.
pub fn verify_output_files(meta: &JobMetadata, primary: FileInput, secondary: FileInput,
    enrichment: FileInput) -> (r: Result<VerifiedOutputs, CompletionError>)
    ensures
        spec_verify_admits(*meta, primary, secondary) ==> r is Ok,
        match r {
            Ok(v) => spec_verified_rel(*meta, primary, secondary, enrichment, v),
            Err(e) => match e {
                CompletionError::FileNotFound(p) => p@ == meta.primary_output_path@
                    && primary is Missing,
                CompletionError::FileReadError(p, m) => (p@ == meta.primary_output_path@
                    && primary == FileInput::Unreadable(m)) || (
                    meta.secondary_output_path matches Some(sp) && p@ == sp@
                    && secondary == FileInput::Unreadable(m)),
                CompletionError::ValidationError(m) => primary matches
                    FileInput::Content(c) && trim_of(c@).len() == 0,
                _ => false,
            },
        },
{
    let primary_content = match primary {
        FileInput::Missing => {
            return Err(CompletionError::FileNotFound(meta.primary_output_path.clone()));
        },
        FileInput::Unreadable(m) => {
            return Err(CompletionError::FileReadError(meta.primary_output_path.clone(), m));
        },
        FileInput::Content(c) => c,
    };
    if trim_str(primary_content.as_str()).is_empty() {
        let mut msg = String::from_str("Primary output file is empty: ");
        msg.append(meta.primary_output_path.as_str());
        return Err(CompletionError::ValidationError(msg));
    }
    let secondary_content = match &meta.secondary_output_path {
        Some(sp) => {
            match secondary {
                FileInput::Missing => None,
                FileInput::Unreadable(m) => {
                    return Err(CompletionError::FileReadError(sp.clone(), m));
                },
                FileInput::Content(c) => Some(c),
            }
        },
        None => None,
    };
    let enrichment_content = match &meta.enrichment_output_path {
        Some(_) => {
            match enrichment {
                FileInput::Content(c) => Some(c),
                _ => None,
            }
        },
        None => None,
    };
    Ok(VerifiedOutputs { primary_content, secondary_content, enrichment_content })
}

pub open spec fn spec_is_space(c: char) -> bool {
    c == ' ' || c == '\t' || c == '\n' || c == '\r'
}

fn is_space(c: char) -> (r: bool)
    ensures
        r == spec_is_space(c),
{
    c == ' ' || c == '\t' || c == '\n' || c == '\r'
}

/// The first index at or after `i` holding a non-space character, or the end.
pub open spec fn spec_skip_space(s: Seq<char>, i: int) -> int
    decreases s.len() - i,
{
    if i < 0 || i >= s.len() {
        s.len() as int
    } else if !spec_is_space(s[i]) {
        i
    } else {
        spec_skip_space(s, i + 1)
    }
}

/// The first index at or after `i` holding a space, or the end.
pub open spec fn spec_next_space(s: Seq<char>, i: int) -> int
    decreases s.len() - i,
{
    if i < 0 || i >= s.len() {
        s.len() as int
    } else if spec_is_space(s[i]) {
        i
    } else {
        spec_next_space(s, i + 1)
    }
}

/// How a bare person name splits: the first space-separated word, and the
/// remainder after the spaces that follow it.
pub open spec fn spec_split_name(s: Seq<char>) -> (Seq<char>, Seq<char>) {
    let a = spec_skip_space(s, 0);
    let b = spec_next_space(s, a);
    let c = spec_skip_space(s, b);
    (s.subrange(a, b), s.subrange(c, s.len() as int))
}

/// Splits a bare name into its first word and the rest.
pub fn split_name(s: &str) -> (r: (String, String))
    ensures
        r.0@ == spec_split_name(s@).0,
        r.1@ == spec_split_name(s@).1,
{
    let n = s.unicode_len();
    let mut a: usize = 0;
    while a < n && is_space(s.get_char(a))
        invariant
            a <= n,
            n == s@.len(),
            spec_skip_space(s@, 0) == spec_skip_space(s@, a as int),
        decreases n - a,
    {
        a += 1;
    }
    let mut b: usize = a;
    while b < n && !is_space(s.get_char(b))
        invariant
            a <= b <= n,
            n == s@.len(),
            spec_next_space(s@, a as int) == spec_next_space(s@, b as int),
        decreases n - b,
    {
        b += 1;
    }
    let mut c: usize = b;
    while c < n && is_space(s.get_char(c))
        invariant
            b <= c <= n,
            n == s@.len(),
            spec_skip_space(s@, b as int) == spec_skip_space(s@, c as int),
        decreases n - c,
    {
        c += 1;
    }
    let first = str_of(s.substring_char(a, b));
    let rest = str_of(s.substring_char(c, n));
    (first, rest)
}

/// The first name a people entry yields: the `firstName` field, else the
/// first word of `name`, else `Unknown`.
pub open spec fn spec_extract_first_name(p: PersonFields) -> Seq<char> {
    match p.first_name {
        Some(f) => f@,
        None => match p.name {
            Some(n) => if spec_split_name(n@).0.len() > 0 {
                spec_split_name(n@).0
            } else {
                "Unknown"@
            },
            None => "Unknown"@,
        },
    }
}

/// The last name a people entry yields: the `lastName` field, else what
/// follows the first word of `name`, else nothing.
pub open spec fn spec_extract_last_name(p: PersonFields) -> Seq<char> {
    match p.last_name {
        Some(l) => l@,
        None => match p.name {
            Some(n) => spec_split_name(n@).1,
            None => ""@,
        },
    }
}

pub fn extract_first_name(p: &PersonFields) -> (r: String)
    ensures
        r@ == spec_extract_first_name(*p),
{
    match &p.first_name {
        Some(f) => f.clone(),
        None => match &p.name {
            Some(n) => {
                let (first, _) = split_name(n.as_str());
                if first.as_str().is_empty() {
                    str_of("Unknown")
                } else {
                    first
                }
            },
            None => str_of("Unknown"),
        },
    }
}

pub fn extract_last_name(p: &PersonFields) -> (r: String)
    ensures
        r@ == spec_extract_last_name(*p),
{
    match &p.last_name {
        Some(l) => l.clone(),
        None => match &p.name {
            Some(n) => {
                let (_, rest) = split_name(n.as_str());
                rest
            },
            None => {
                proof {
                    reveal_strlit("");
                }
                let r = String::new();
                proof {
                    assert(r@ =~= ""@);
                }
                r
            },
        },
    }
}

/// The tier a score falls in when the output names none: failed
/// requirements disqualify, otherwise the configured thresholds decide.
pub open spec fn spec_derive_tier(passes: bool, total: int, hot: int, warm: int,
    nurture: int) -> Seq<char> {
    if !passes {
        "disqualified"@
    } else if total >= hot {
        "hot"@
    } else if total >= warm {
        "warm"@
    } else if total >= nurture {
        "nurture"@
    } else {
        "disqualified"@
    }
}

pub fn derive_tier(passes: bool, total: i64, hot: i64, warm: i64, nurture: i64)
    -> (r: &'static str)
    ensures
        r@ == spec_derive_tier(passes, total as int, hot as int, warm as int, nurture as int),
{
    if !passes {
        "disqualified"
    } else if total >= hot {
        "hot"
    } else if total >= warm {
        "warm"
    } else if total >= nurture {
        "nurture"
    } else {
        "disqualified"
    }
}

/// The interior of one line of worker output parsed by job kind.
#[derive(Debug)]
pub enum ParsedOutput {
    CompanyResearch {
        profile: String,
        people: Option<Vec<ParsedPersonData>>,
        enrichment: Option<LeadEnrichment>,
    },
    PersonResearch { profile: String, enrichment: Option<PersonEnrichment> },
    Scoring { score: ScoreFields },
    Conversation { topics: String },
    CompanyProfile { fields: CompanyProfileFields },
}

/// The person row data one decoded people entry yields.
pub open spec fn spec_person_data_matches(f: PersonFields, d: ParsedPersonData) -> bool {
    &&& d.first_name@ == spec_extract_first_name(f)
    &&& d.last_name@ == spec_extract_last_name(f)
    &&& d.email == f.email
    &&& d.title == f.title
    &&& d.linkedin_url == f.linkedin_url
    &&& d.management_level == f.management_level
    &&& d.year_joined == f.year_joined
}

/// Converts the decoded people entries into person row data.
fn people_from_fields(fields: &Vec<PersonFields>) -> (r: Vec<ParsedPersonData>)
    ensures
        r@.len() == fields@.len(),
        forall|k: int|
            0 <= k < fields@.len() ==> spec_person_data_matches(fields@[k], #[trigger] r@[k]),
{
    let mut out: Vec<ParsedPersonData> = Vec::new();
    let mut i: usize = 0;
    while i < fields.len()
        invariant
            i <= fields@.len(),
            out@.len() == i,
            forall|k: int|
                0 <= k < i ==> spec_person_data_matches(fields@[k], #[trigger] out@[k]),
        decreases fields@.len() - i,
    {
        let f = &fields[i];
        out.push(ParsedPersonData {
            first_name: extract_first_name(f),
            last_name: extract_last_name(f),
            email: clone_opt_string(&f.email),
            title: clone_opt_string(&f.title),
            linkedin_url: clone_opt_string(&f.linkedin_url),
            management_level: clone_opt_string(&f.management_level),
            year_joined: f.year_joined,
        });
        i += 1;
    }
    out
}

/// Where the first brace-balanced object starting at `i` ends (the index
/// one past its closing brace), or -1 when the braces never balance.
pub open spec fn spec_brace_end(s: Seq<char>, i: int, depth: int) -> int
    decreases s.len() - i,
{
    if i < 0 || i >= s.len() {
        -1
    } else if s[i] == '{' {
        spec_brace_end(s, i + 1, depth + 1)
    } else if s[i] == '}' {
        if depth == 1 {
            i + 1
        } else {
            spec_brace_end(s, i + 1, depth - 1)
        }
    } else {
        spec_brace_end(s, i + 1, depth)
    }
}

/// The first brace-balanced candidate object of the text, if any.
pub open spec fn spec_brace_candidate(s: Seq<char>) -> Option<Seq<char>> {
    let a = spec_find_char(s, '{', 0);
    if a < 0 {
        None
    } else {
        let e = spec_brace_end(s, a, 0);
        if e < 0 {
            None
        } else {
            Some(s.subrange(a, e))
        }
    }
}

/// The candidate inside the first explicitly JSON-marked fence, if any.
pub open spec fn spec_json_fence_candidate(s: Seq<char>) -> Option<Seq<char>> {
    let j = spec_find(s, "```json"@, 0);
    if j < 0 {
        None
    } else {
        let e = spec_find(s, "```"@, j + 7);
        if e < 0 {
            None
        } else {
            Some(trim_of(s.subrange(j + 7, e)))
        }
    }
}

/// The candidate inside the first fence of any kind, taken from the line
/// after its opening, if any.
pub open spec fn spec_any_fence_candidate(s: Seq<char>) -> Option<Seq<char>> {
    let k = spec_find(s, "```"@, 0);
    if k < 0 {
        None
    } else {
        let nl = spec_find_char(s, '\n', k + 3);
        if nl < 0 {
            None
        } else {
            let e = spec_find(s, "```"@, nl + 1);
            if e < 0 {
                None
            } else {
                Some(trim_of(s.subrange(nl + 1, e)))
            }
        }
    }
}

/// What salvaging JSON from captured output yields: the whole text if it is
/// an object, else the first brace-balanced object, else the first
/// JSON-marked fence, else the first fence of any kind; the first of these
/// that decodes wins.
pub open spec fn spec_salvaged_json(s: Seq<char>) -> Option<CompanyProfileFields> {
    if company_profile_json_of(s) is Some {
        company_profile_json_of(s)
    } else if spec_brace_candidate(s) matches Some(c) && company_profile_json_of(c) is Some {
        company_profile_json_of(spec_brace_candidate(s)->0)
    } else if spec_json_fence_candidate(s) matches Some(c)
        && company_profile_json_of(c) is Some {
        company_profile_json_of(spec_json_fence_candidate(s)->0)
    } else if spec_any_fence_candidate(s) matches Some(c)
        && company_profile_json_of(c) is Some {
        company_profile_json_of(spec_any_fence_candidate(s)->0)
    } else {
        None
    }
}

/// Finds the end of the brace-balanced object that starts at `a`, which
/// must hold the opening brace.
fn brace_end(s: &str, a: usize) -> (r: Option<usize>)
    requires
        a < s@.len(),
        s@[a as int] == '{',
    ensures
        match r {
            Some(e) => a < e <= s@.len() && spec_brace_end(s@, a as int, 0) == e,
            None => spec_brace_end(s@, a as int, 0) == -1,
        },
{
    let n = s.unicode_len();
    let mut i: usize = a;
    let mut depth: u64 = 0;
    while i < n
        invariant
            a <= i <= n,
            n == s@.len(),
            s@[a as int] == '{',
            depth <= i,
            i == a ==> depth == 0,
            i > a ==> depth >= 1,
            spec_brace_end(s@, a as int, 0) == spec_brace_end(s@, i as int, depth as int),
        decreases n - i,
    {
        let c = s.get_char(i);
        if c == '{' {
            depth = depth + 1;
        } else if c == '}' {
            // The scan starts on an opening brace, so the depth is at
            // least one whenever a closing brace is seen.
            proof {
                assert(i > a);
                assert(depth >= 1);
            }
            if depth == 1 {
                return Some(i + 1);
            }
            depth = depth - 1;
        }
        i += 1;
    }
    None
}

/// Salvages a JSON object from captured output: the whole text, the first
/// brace-balanced object, the first JSON-marked fence, or the first fence
/// of any kind, whichever decodes first.
pub fn extract_json_from_stdout(output: &str) -> (r: Option<CompanyProfileFields>)
    ensures
        r == spec_salvaged_json(output@),
{
    proof {
        reveal_strlit("```json");
        reveal_strlit("```");
    }
    if let Some(f) = parse_company_profile_json(output) {
        return Some(f);
    }
    // The first brace-balanced object.
    if let Some(a) = find_char_from(output, '{', 0) {
        proof {
            lemma_find_char_props(output@, '{', 0);
        }
        if let Some(e) = brace_end(output, a) {
            let cand = output.substring_char(a, e);
            if let Some(f) = parse_company_profile_json(cand) {
                return Some(f);
            }
        }
    }
    // A fence explicitly marked as JSON.
    let n = output.unicode_len();
    if let Some(j) = find_sub_from(output, "```json", 0) {
        proof {
            lemma_find_props(output@, "```json"@, 0);
        }
        if let Some(e) = find_sub_from(output, "```", j + 7) {
            proof {
                lemma_find_props(output@, "```"@, j + 7 as int);
            }
            let cand = trim_str(output.substring_char(j + 7, e));
            if let Some(f) = parse_company_profile_json(cand) {
                return Some(f);
            }
        }
    }
    // Any fence, from the line after its opening.
    if let Some(k) = find_sub_from(output, "```", 0) {
        proof {
            lemma_find_props(output@, "```"@, 0);
        }
        if let Some(nl) = find_char_from(output, '\n', k + 3) {
            proof {
                lemma_find_char_props(output@, '\n', k + 3 as int);
            }
            if let Some(e) = find_sub_from(output, "```", nl + 1) {
                proof {
                    lemma_find_props(output@, "```"@, nl + 1 as int);
                }
                let cand = trim_str(output.substring_char(nl + 1, e));
                if let Some(f) = parse_company_profile_json(cand) {
                    return Some(f);
                }
            }
        }
    }
    None
}

/// The conditions under which parsing is owed to succeed: a scoring output
/// must decode and name `passesRequirements`; a profile analysis must
/// decode directly or be salvageable from the captured output; the other
/// kinds always parse.
pub open spec fn spec_parse_admits(meta: JobMetadata, primary_text: Seq<char>,
    stdout: Seq<char>) -> bool {
    match meta.job_type {
        JobType::Scoring => score_json_of(primary_text) matches Some(s)
            && s.has_passes_requirements,
        JobType::CompanyProfileResearch => company_profile_json_of(primary_text) is Some
            || spec_salvaged_json(stdout) is Some,
        _ => true,
    }
}

/// How the parsed output relates to the verified contents, by job kind.
pub open spec fn spec_parsed_rel(outputs: VerifiedOutputs, meta: JobMetadata,
    stdout: Seq<char>, p: ParsedOutput) -> bool {
    match meta.job_type {
        JobType::CompanyResearch => p matches ParsedOutput::CompanyResearch {
            profile, people, enrichment }
            && profile == outputs.primary_content
            && (match outputs.secondary_content {
                Some(sc) => match people_json_of(sc@) {
                    Some(fs) => people matches Some(v) && v@.len() == fs.len()
                        && forall|k: int|
                            0 <= k < fs.len() ==> spec_person_data_matches(
                                fs[k],
                                #[trigger] v@[k],
                            ),
                    None => people is None,
                },
                None => people is None,
            })
            && enrichment == (match outputs.enrichment_content {
                Some(ec) => lead_enrichment_of(ec@),
                None => None,
            }),
        JobType::PersonResearch => p matches ParsedOutput::PersonResearch {
            profile, enrichment }
            && profile == outputs.primary_content
            && enrichment == (match outputs.enrichment_content {
                Some(ec) => person_enrichment_of(ec@),
                None => None,
            }),
        JobType::Scoring => p matches ParsedOutput::Scoring { score }
            && score_json_of(outputs.primary_content@) == Some(score)
            && score.has_passes_requirements,
        JobType::Conversation => p matches ParsedOutput::Conversation { topics }
            && topics == outputs.primary_content,
        JobType::CompanyProfileResearch => p matches ParsedOutput::CompanyProfile { fields }
            && Some(fields) == (if company_profile_json_of(
                outputs.primary_content@) is Some {
                company_profile_json_of(outputs.primary_content@)
            } else {
                spec_salvaged_json(stdout)
            }),
    }
}

/// Parses the verified contents by job kind: research people and
/// enrichments are best-effort, a scoring output must be JSON naming
/// `passesRequirements`, and a profile analysis may be salvaged from the
/// captured output. Success is owed whenever the contents admit it.
pub fn parse_output_content(outputs: VerifiedOutputs, meta: &JobMetadata,
    accumulated_stdout: &str) -> (r: Result<ParsedOutput, CompletionError>)
    ensures
        spec_parse_admits(*meta, outputs.primary_content@, accumulated_stdout@) ==> r is Ok,
        match r {
            Ok(p) => spec_parsed_rel(outputs, *meta, accumulated_stdout@, p),
            Err(e) => match meta.job_type {
                JobType::Scoring => match e {
                    CompletionError::ParseError(_) => score_json_of(
                        outputs.primary_content@) is None,
                    CompletionError::ValidationError(_) => score_json_of(
                        outputs.primary_content@) matches Some(sf)
                        && !sf.has_passes_requirements,
                    _ => false,
                },
                JobType::CompanyProfileResearch => e matches CompletionError::ParseError(_)
                    && company_profile_json_of(outputs.primary_content@) is None
                    && spec_salvaged_json(accumulated_stdout@) is None,
                _ => false,
            },
        },
{
    match meta.job_type {
        JobType::CompanyResearch => {
            let people = match &outputs.secondary_content {
                Some(sc) => match parse_people_json(sc.as_str()) {
                    Some(fields) => Some(people_from_fields(&fields)),
                    None => None,
                },
                None => None,
            };
            let enrichment = match &outputs.enrichment_content {
                Some(ec) => parse_lead_enrichment(ec.as_str()),
                None => None,
            };
            Ok(ParsedOutput::CompanyResearch {
                profile: outputs.primary_content,
                people,
                enrichment,
            })
        },
        JobType::PersonResearch => {
            let enrichment = match &outputs.enrichment_content {
                Some(ec) => parse_person_enrichment(ec.as_str()),
                None => None,
            };
            Ok(ParsedOutput::PersonResearch { profile: outputs.primary_content, enrichment })
        },
        JobType::Scoring => {
            let score = match parse_score_json(outputs.primary_content.as_str()) {
                Some(s) => s,
                None => {
                    return Err(CompletionError::ParseError(str_of("Invalid score JSON")));
                },
            };
            if !score.has_passes_requirements {
                return Err(CompletionError::ValidationError(str_of(
                    "Score JSON missing 'passesRequirements' field",
                )));
            }
            Ok(ParsedOutput::Scoring { score })
        },
        JobType::Conversation => {
            Ok(ParsedOutput::Conversation { topics: outputs.primary_content })
        },
        JobType::CompanyProfileResearch => {
            if let Some(fields) = parse_company_profile_json(outputs.primary_content.as_str()) {
                return Ok(ParsedOutput::CompanyProfile { fields });
            }
            match extract_json_from_stdout(accumulated_stdout) {
                Some(fields) => Ok(ParsedOutput::CompanyProfile { fields }),
                None => Err(CompletionError::ParseError(str_of(
                    "No profile JSON in output or captured stream",
                ))),
            }
        },
    }
}

/// The newest active scoring configuration, as a value the contracts can
/// name.
pub open spec fn spec_has_active_config(cs: Seq<ScoringConfig>) -> bool {
    exists|i: int| 0 <= i < cs.len() && cs[i].is_active
}

pub open spec fn spec_config_choice(cs: Seq<ScoringConfig>) -> ScoringConfig {
    cs[choose|i: int|
        0 <= i < cs.len() && cs[i].is_active && (forall|j: int|
            0 <= j < cs.len() && cs[j].is_active ==> cs[j].id <= cs[i].id)]
}

proof fn lemma_config_choice(cs: Seq<ScoringConfig>, next: i64, i: int)
    requires
        configs_wf(cs, next),
        0 <= i < cs.len(),
        cs[i].is_active,
        forall|j: int| 0 <= j < cs.len() && (#[trigger] cs[j]).is_active ==> cs[j].id <= cs[i].id,
    ensures
        spec_has_active_config(cs),
        spec_config_choice(cs) == cs[i],
{
    assert(0 <= i < cs.len() && cs[i].is_active && (forall|j: int|
        0 <= j < cs.len() && (#[trigger] cs[j]).is_active ==> cs[j].id <= cs[i].id));
    let k = choose|k: int|
        0 <= k < cs.len() && cs[k].is_active && (forall|j: int|
            0 <= j < cs.len() && cs[j].is_active ==> cs[j].id <= cs[k].id);
    assert(cs[k].id <= cs[i].id);
    assert(cs[i].id <= cs[k].id);
    if i < k {
        assert(cs[i].id != cs[k].id);
    } else if k < i {
        assert(cs[k].id != cs[i].id);
    }
}

/// What the research outcome writes onto the lead: the completed status,
/// the profile, the timestamp, and the null-only enrichment on top.
pub open spec fn spec_lead_after_research(oldl: Lead, newl: Lead, profile: String,
    e: Option<LeadEnrichment>, now: i64) -> bool {
    &&& newl.research_status == ResearchStatus::Completed
    &&& newl.researched_at == Some(now)
    &&& (newl.company_profile matches Some(cp) && cp@ == profile@)
    &&& newl.id == oldl.id
    &&& newl.company_name == oldl.company_name
    &&& newl.user_status == oldl.user_status
    &&& newl.created_at == oldl.created_at
    &&& match e {
        Some(en) => {
            &&& newl.website == spec_coalesce(oldl.website, en.website)
            &&& newl.industry == spec_coalesce(oldl.industry, en.industry)
            &&& newl.sub_industry == spec_coalesce(oldl.sub_industry, en.sub_industry)
            &&& newl.employees == spec_coalesce(oldl.employees, en.employees)
            &&& newl.employee_range == spec_coalesce(oldl.employee_range, en.employee_range)
            &&& newl.revenue == spec_coalesce(oldl.revenue, en.revenue)
            &&& newl.revenue_range == spec_coalesce(oldl.revenue_range, en.revenue_range)
            &&& newl.company_linkedin_url == spec_coalesce(
                oldl.company_linkedin_url,
                en.company_linkedin_url,
            )
            &&& newl.city == spec_coalesce(oldl.city, en.city)
            &&& newl.state == spec_coalesce(oldl.state, en.state)
            &&& newl.country == spec_coalesce(oldl.country, en.country)
        },
        None => {
            &&& newl.website == oldl.website
            &&& newl.industry == oldl.industry
            &&& newl.sub_industry == oldl.sub_industry
            &&& newl.employees == oldl.employees
            &&& newl.employee_range == oldl.employee_range
            &&& newl.revenue == oldl.revenue
            &&& newl.revenue_range == oldl.revenue_range
            &&& newl.company_linkedin_url == oldl.company_linkedin_url
            &&& newl.city == oldl.city
            &&& newl.state == oldl.state
            &&& newl.country == oldl.country
        },
    }
}

/// What the research outcome writes onto the person.
pub open spec fn spec_person_after_research(oldp: Person, newp: Person, profile: String,
    e: Option<PersonEnrichment>, now: i64) -> bool {
    &&& newp.research_status == ResearchStatus::Completed
    &&& newp.researched_at == Some(now)
    &&& (newp.person_profile matches Some(pp) && pp@ == profile@)
    &&& newp.id == oldp.id
    &&& newp.lead_id == oldp.lead_id
    &&& newp.first_name == oldp.first_name
    &&& newp.last_name == oldp.last_name
    &&& newp.user_status == oldp.user_status
    &&& newp.conversation_topics == oldp.conversation_topics
    &&& newp.conversation_generated_at == oldp.conversation_generated_at
    &&& newp.created_at == oldp.created_at
    &&& match e {
        Some(en) => {
            &&& newp.email == spec_coalesce(oldp.email, en.email)
            &&& newp.title == spec_coalesce(oldp.title, en.title)
            &&& newp.management_level == spec_coalesce(oldp.management_level, en.management_level)
            &&& newp.linkedin_url == spec_coalesce(oldp.linkedin_url, en.linkedin_url)
            &&& newp.year_joined == spec_coalesce(oldp.year_joined, en.year_joined)
        },
        None => {
            &&& newp.email == oldp.email
            &&& newp.title == oldp.title
            &&& newp.management_level == oldp.management_level
            &&& newp.linkedin_url == oldp.linkedin_url
            &&& newp.year_joined == oldp.year_joined
        },
    }
}

/// The score row a scoring output becomes, against the chosen configuration.
pub open spec fn spec_score_row(s: ScoreFields, cfg: ScoringConfig, row: LeadScore,
    lead_id: i64, now: i64) -> bool {
    let passes = s.passes_requirements == Some(true);
    let total = match s.total_score {
        Some(v) => v,
        None => 0,
    };
    &&& row.lead_id == lead_id
    &&& row.config_id == cfg.id
    &&& row.passes_requirements == passes
    &&& row.requirement_results@ == (match s.requirement_results {
        Some(v) => v@,
        None => "[]"@,
    })
    &&& row.total_score == total
    &&& row.score_breakdown@ == (match s.score_breakdown {
        Some(v) => v@,
        None => "[]"@,
    })
    &&& row.tier@ == (match s.tier {
        Some(v) => v@,
        None => spec_derive_tier(passes, total as int, cfg.tier_hot_min as int,
            cfg.tier_warm_min as int, cfg.tier_nurture_min as int),
    })
    &&& match (row.scoring_notes, s.scoring_notes) {
        (Some(a), Some(b)) => a@ == b@,
        (None, None) => true,
        _ => false,
    }
    &&& row.scored_at == Some(now)
    &&& row.created_at == now
}

/// The fallback marketing narrative written when the analysis names none.
pub open spec fn spec_fallback_narrative(company: Seq<char>, website: Seq<char>) -> Seq<char> {
    "# Marketing Narrative\n\nAI-generated analysis for "@ + company
        + "\n\nBased on the research of "@ + website
        + ", we've identified key insights about your target audience, unique selling propositions, and market position."@
}

/// The one transaction the completion handler commits, by job kind; no
/// table it does not name changes.
pub open spec fn spec_database_effect(pre: Store, post: Store, parsed: ParsedOutput,
    meta: JobMetadata, now: i64) -> bool {
    match parsed {
        ParsedOutput::CompanyResearch { profile, people, enrichment } => {
            &&& (match people {
                Some(list) => {
                    let kept = pre.people@.filter(
                        |q: Person| q.lead_id != Some(meta.entity_id),
                    );
                    &&& post.people@.len() == kept.len() + list@.len()
                    &&& forall|k: int| 0 <= k < kept.len() ==> post.people@[k] == kept[k]
                    &&& forall|k: int|
                        0 <= k < list@.len() ==> spec_person_from_parsed(
                            list@[k],
                            #[trigger] post.people@[kept.len() + k],
                            meta.entity_id,
                            now,
                        )
                },
                None => post.people == pre.people,
            })
            &&& (if spec_has_lead(pre.leads@, meta.entity_id) {
                let idx = spec_lead_index(pre.leads@, meta.entity_id);
                &&& post.leads@ == pre.leads@.update(idx, post.leads@[idx])
                &&& spec_lead_after_research(pre.leads@[idx], post.leads@[idx], profile,
                    enrichment, now)
            } else {
                post.leads == pre.leads
            })
            &&& post.lead_scores == pre.lead_scores
            &&& post.company_profile == pre.company_profile
        },
        ParsedOutput::PersonResearch { profile, enrichment } => {
            &&& (if spec_has_person(pre.people@, meta.entity_id) {
                let idx = spec_person_index(pre.people@, meta.entity_id);
                &&& post.people@ == pre.people@.update(idx, post.people@[idx])
                &&& spec_person_after_research(pre.people@[idx], post.people@[idx], profile,
                    enrichment, now)
            } else {
                post.people == pre.people
            })
            &&& post.leads == pre.leads
            &&& post.lead_scores == pre.lead_scores
            &&& post.company_profile == pre.company_profile
        },
        ParsedOutput::Scoring { score } => {
            let kept = pre.lead_scores@.filter(|s: LeadScore| s.lead_id != meta.entity_id);
            &&& spec_has_active_config(pre.scoring_configs@)
            &&& post.lead_scores@.len() == kept.len() + 1
            &&& forall|k: int| 0 <= k < kept.len() ==> post.lead_scores@[k] == kept[k]
            &&& spec_score_row(score, spec_config_choice(pre.scoring_configs@),
                post.lead_scores@.last(), meta.entity_id, now)
            &&& post.leads == pre.leads
            &&& post.people == pre.people
            &&& post.company_profile == pre.company_profile
        },
        ParsedOutput::Conversation { topics } => {
            &&& (if spec_has_person(pre.people@, meta.entity_id) {
                let idx = spec_person_index(pre.people@, meta.entity_id);
                let newp = post.people@[idx];
                &&& post.people@ == pre.people@.update(idx, newp)
                &&& (newp.conversation_topics matches Some(ct) && ct@ == topics@)
                &&& newp.conversation_generated_at == Some(now)
                &&& newp == (Person {
                    conversation_topics: newp.conversation_topics,
                    conversation_generated_at: newp.conversation_generated_at,
                    ..pre.people@[idx]
                })
            } else {
                post.people == pre.people
            })
            &&& post.leads == pre.leads
            &&& post.lead_scores == pre.lead_scores
            &&& post.company_profile == pre.company_profile
        },
        ParsedOutput::CompanyProfile { fields } => {
            let prev_name = match pre.company_profile {
                Some(q) => q.company_name@,
                None => ""@,
            };
            let prev_site = match pre.company_profile {
                Some(q) => q.website@,
                None => ""@,
            };
            &&& (post.company_profile matches Some(p) && {
                &&& p.research_status == ResearchStatus::Completed
                &&& p.researched_at == Some(now)
                &&& p.raw_analysis@ == fields.raw@
                &&& p.marketing_narrative@ == (match fields.marketing_narrative {
                    Some(m) => m@,
                    None => spec_fallback_narrative(prev_name, prev_site),
                })
            })
            &&& post.leads == pre.leads
            &&& post.people == pre.people
            &&& post.lead_scores == pre.lead_scores
        },
    }
}

/// The only conditions under which the transaction itself can fail: a
/// scoring output without an active configuration, or an id allocator at
/// its limit. Everywhere else the commit is owed.
pub open spec fn spec_database_refusal(s: Store, parsed: ParsedOutput) -> bool {
    match parsed {
        ParsedOutput::Scoring { .. } => !spec_has_active_config(s.scoring_configs@)
            || s.next_score_id == 0x7fff_ffff_ffff_ffff,
        ParsedOutput::CompanyResearch { people, .. } => people matches Some(l) && (
            l@.len() >= 0x7fff_ffff_ffff_ffff || s.next_person_id + l@.len()
                > 0x7fff_ffff_ffff_ffff),
        _ => false,
    }
}

/// Commits the parsed output in one transaction, all or nothing: the
/// domain tables change exactly as the kind prescribes, or an error leaves
/// the store untouched. Each error is tied to its only possible cause, so
/// the commit is owed whenever none of them holds.
pub fn update_database(store: &mut Store, parsed: &ParsedOutput, meta: &JobMetadata,
    now: i64) -> (r: Result<(), CompletionError>)
    requires
        old(store).wf(),
    ensures
        final(store).wf(),
        final(store).jobs == old(store).jobs,
        final(store).logs == old(store).logs,
        final(store).prompts == old(store).prompts,
        final(store).scoring_configs == old(store).scoring_configs,
        final(store).settings == old(store).settings,
        match r {
            Ok(()) => spec_database_effect(*old(store), *final(store), *parsed, *meta, now),
            Err(e) => *final(store) == *old(store) && match e {
                CompletionError::ValidationError(_) => parsed matches ParsedOutput::Scoring { .. }
                    && !spec_has_active_config(old(store).scoring_configs@),
                CompletionError::DatabaseError(_) => spec_database_refusal(*old(store),
                    *parsed),
                _ => false,
            },
        },
        !spec_database_refusal(*old(store), *parsed) ==> r is Ok,
{
    match parsed {
        ParsedOutput::CompanyResearch { profile, people, enrichment } => {
            if let Some(list) = people {
                if store.replace_people_for_lead(meta.entity_id, list, now).is_err() {
                    return Err(CompletionError::DatabaseError(str_of(
                        "could not replace the lead's people",
                    )));
                }
            }
            let ghost mid1 = *store;
            store.update_lead_research(meta.entity_id, ResearchStatus::Completed,
                Some(profile.as_str()), now);
            let ghost mid2 = *store;
            if let Some(en) = enrichment {
                store.enrich_lead(meta.entity_id, en);
            }
            proof {
                if spec_has_lead(old(store).leads@, meta.entity_id) {
                    let idx = spec_lead_index(old(store).leads@, meta.entity_id);
                    assert(mid1.leads == old(store).leads);
                    assert(mid2.leads@ == mid1.leads@.update(idx, mid2.leads@[idx]));
                    if enrichment is Some {
                        mid2.lemma_lead_index_unique(idx, meta.entity_id);
                        assert(store.leads@ == mid2.leads@.update(idx, store.leads@[idx]));
                    }
                    assert(store.leads@ =~= old(store).leads@.update(idx, store.leads@[idx]));
                    assert(spec_lead_after_research(old(store).leads@[idx], store.leads@[idx],
                        *profile, *enrichment, now));
                }
            }
            Ok(())
        },
        ParsedOutput::PersonResearch { profile, enrichment } => {
            let ghost mid1 = *store;
            store.update_person_research(meta.entity_id, ResearchStatus::Completed,
                Some(profile.as_str()), now);
            let ghost mid2 = *store;
            if let Some(en) = enrichment {
                store.enrich_person(meta.entity_id, en);
            }
            proof {
                if spec_has_person(old(store).people@, meta.entity_id) {
                    let idx = spec_person_index(old(store).people@, meta.entity_id);
                    assert(mid2.people@ == mid1.people@.update(idx, mid2.people@[idx]));
                    if enrichment is Some {
                        mid2.lemma_person_index_unique(idx, meta.entity_id);
                        assert(store.people@ == mid2.people@.update(idx, store.people@[idx]));
                    }
                    assert(store.people@ =~= old(store).people@.update(idx, store.people@[idx]));
                    assert(spec_person_after_research(old(store).people@[idx],
                        store.people@[idx], *profile, *enrichment, now));
                }
            }
            Ok(())
        },
        ParsedOutput::Scoring { score } => {
            let ghost gpre = *store;
            let (cfg_id, hot, warm, nurture, gcfg) = match store.get_active_scoring_config() {
                Some(c) => {
                    let ghost g = *c;
                    (c.id, c.tier_hot_min, c.tier_warm_min, c.tier_nurture_min, Ghost(g))
                },
                None => {
                    return Err(CompletionError::ValidationError(str_of(
                        "No active scoring configuration",
                    )));
                },
            };
            proof {
                let cs = store.scoring_configs@;
                let i = choose|i: int| 0 <= i < cs.len() && cs[i] == gcfg@;
                lemma_config_choice(cs, store.next_config_id, i);
                assert(spec_config_choice(cs) == gcfg@);
            }
            let passes = matches!(score.passes_requirements, Some(true));
            let total: i64 = match score.total_score {
                Some(v) => v,
                None => 0,
            };
            let rr: String = match &score.requirement_results {
                Some(v) => v.clone(),
                None => str_of("[]"),
            };
            let bd: String = match &score.score_breakdown {
                Some(v) => v.clone(),
                None => str_of("[]"),
            };
            let tier: String = match &score.tier {
                Some(v) => v.clone(),
                None => str_of(derive_tier(passes, total, hot, warm, nurture)),
            };
            let notes: Option<&str> = match &score.scoring_notes {
                Some(v) => Some(v.as_str()),
                None => None,
            };
            match store.save_lead_score(meta.entity_id, cfg_id, passes, rr.as_str(), total,
                bd.as_str(), tier.as_str(), notes, now) {
                Ok(_) => Ok(()),
                Err(_) => Err(CompletionError::DatabaseError(str_of(
                    "could not save the lead's score",
                ))),
            }
        },
        ParsedOutput::Conversation { topics } => {
            store.update_person_conversation(meta.entity_id, Some(topics.as_str()), now);
            Ok(())
        },
        ParsedOutput::CompanyProfile { fields } => {
            let (prev_name, prev_site, prev_product) = match store.get_company_profile() {
                Some(p) => (p.company_name.clone(), p.website.clone(), p.product_name.clone()),
                None => (String::new(), String::new(), String::new()),
            };
            proof {
                reveal_strlit("");
                if old(store).company_profile is None {
                    assert(prev_name@ =~= ""@);
                    assert(prev_site@ =~= ""@);
                }
            }
            let narrative: String = match &fields.marketing_narrative {
                Some(m) => m.clone(),
                None => {
                    let mut s = String::from_str(
                        "# Marketing Narrative\n\nAI-generated analysis for ",
                    );
                    s.append(prev_name.as_str());
                    s.append("\n\nBased on the research of ");
                    s.append(prev_site.as_str());
                    s.append(
                        ", we've identified key insights about your target audience, unique selling propositions, and market position.",
                    );
                    proof {
                        assert(s@ =~= spec_fallback_narrative(prev_name@, prev_site@));
                    }
                    s
                },
            };
            let ta: Option<&str> = match &fields.target_audience {
                Some(v) => Some(v.as_str()),
                None => None,
            };
            let us: Option<&str> = match &fields.usps {
                Some(v) => Some(v.as_str()),
                None => None,
            };
            let sn: Option<&str> = match &fields.sales_narrative {
                Some(v) => Some(v.as_str()),
                None => None,
            };
            let co: Option<&str> = match &fields.competitors {
                Some(v) => Some(v.as_str()),
                None => None,
            };
            let mi: Option<&str> = match &fields.market_insights {
                Some(v) => Some(v.as_str()),
                None => None,
            };
            store.save_company_profile(prev_name.as_str(), prev_product.as_str(),
                prev_site.as_str(), ta, us, Some(narrative.as_str()), sn, co, mi,
                Some(fields.raw.as_str()), Some(ResearchStatus::Completed), now);
            Ok(())
        },
    }
}

/// The last index holding the character, or -1.
pub open spec fn spec_rfind_char(s: Seq<char>, c: char) -> int
    decreases s.len(),
{
    if s.len() == 0 {
        -1
    } else if s.last() == c {
        s.len() - 1
    } else {
        spec_rfind_char(s.drop_last(), c)
    }
}

fn rfind_char(s: &str, c: char) -> (r: Option<usize>)
    ensures
        match r {
            Some(i) => spec_rfind_char(s@, c) == i && i < s@.len(),
            None => spec_rfind_char(s@, c) == -1,
        },
{
    let n = s.unicode_len();
    proof {
        assert(s@.subrange(0, n as int) =~= s@);
    }
    let mut i: usize = n;
    while i > 0
        invariant
            i <= n,
            n == s@.len(),
            spec_rfind_char(s@, c) == spec_rfind_char(s@.subrange(0, i as int), c),
        decreases i,
    {
        proof {
            assert(s@.subrange(0, i as int).last() == s@[i - 1]);
            assert(s@.subrange(0, i as int).drop_last() =~= s@.subrange(0, i - 1));
        }
        if s.get_char(i - 1) == c {
            return Some(i - 1);
        }
        i -= 1;
    }
    proof {
        assert(s@.subrange(0, 0) =~= Seq::<char>::empty());
    }
    None
}

/// What to remove once the transaction is committed.
#[derive(Debug)]
pub enum CleanupAction {
    RemoveDir(String),
    RemoveFile(String),
}

/// The directory part of a path: everything before its last separator.
pub open spec fn spec_parent_dir(p: Seq<char>) -> Seq<char> {
    if spec_rfind_char(p, '/') >= 0 {
        p.subrange(0, spec_rfind_char(p, '/'))
    } else {
        Seq::empty()
    }
}

/// What the completion handler removes for this job: research kinds lose
/// their whole per-entity output directory, every other kind only the
/// primary output file.
pub fn cleanup_target(meta: &JobMetadata) -> (r: CleanupAction)
    ensures
        meta.job_type.spec_is_research() ==> (r matches CleanupAction::RemoveDir(d)
            && d@ == spec_parent_dir(meta.primary_output_path@)),
        !meta.job_type.spec_is_research() ==> (r matches CleanupAction::RemoveFile(f)
            && f@ == meta.primary_output_path@),
{
    if meta.job_type.is_research() {
        let p = meta.primary_output_path.as_str();
        let dir = match rfind_char(p, '/') {
            Some(i) => str_of(p.substring_char(0, i)),
            None => String::new(),
        };
        proof {
            assert(dir@ =~= spec_parent_dir(meta.primary_output_path@));
        }
        CleanupAction::RemoveDir(dir)
    } else {
        CleanupAction::RemoveFile(meta.primary_output_path.clone())
    }
}

/// The domain events a committed completion announces, by kind: the lead
/// and people updates, the person update naming its lead, the scored lead,
/// or the refreshed profile.
pub open spec fn spec_completion_events(events: Seq<AppEvent>, s: Store,
    meta: JobMetadata) -> bool {
    match meta.job_type {
        JobType::CompanyResearch => events.len() == 2
            && events[0] == AppEvent::LeadUpdated(LeadUpdatedPayload { id: meta.entity_id })
            && events[1] == AppEvent::PeopleBulkCreated(PeopleBulkCreatedPayload {
                lead_id: meta.entity_id,
            }),
        JobType::PersonResearch | JobType::Conversation => {
            if spec_has_person(s.people@, meta.entity_id) {
                events.len() == 1 && events[0] == AppEvent::PersonUpdated(
                    PersonUpdatedPayload {
                        id: meta.entity_id,
                        lead_id: s.people@[spec_person_index(s.people@,
                            meta.entity_id)].lead_id,
                    },
                )
            } else {
                events.len() == 0
            }
        },
        JobType::Scoring => events.len() == 1 && events[0] == AppEvent::LeadScored(
            LeadScoredPayload { lead_id: meta.entity_id },
        ),
        JobType::CompanyProfileResearch => events.len() == 1
            && events[0] == AppEvent::CompanyProfileUpdated,
    }
}

/// The domain events a committed completion announces, for cache
/// invalidation downstream.
pub fn emit_completion_events(store: &Store, meta: &JobMetadata) -> (r: Vec<AppEvent>)
    requires
        store.wf(),
    ensures
        spec_completion_events(r@, *store, *meta),
{
    let mut out: Vec<AppEvent> = Vec::new();
    match meta.job_type {
        JobType::CompanyResearch => {
            out.push(AppEvent::LeadUpdated(LeadUpdatedPayload { id: meta.entity_id }));
            out.push(AppEvent::PeopleBulkCreated(PeopleBulkCreatedPayload {
                lead_id: meta.entity_id,
            }));
        },
        JobType::PersonResearch | JobType::Conversation => {
            if let Some(p) = store.get_person_raw(meta.entity_id) {
                out.push(AppEvent::PersonUpdated(PersonUpdatedPayload {
                    id: meta.entity_id,
                    lead_id: p.lead_id,
                }));
            }
        },
        JobType::Scoring => {
            out.push(AppEvent::LeadScored(LeadScoredPayload { lead_id: meta.entity_id }));
        },
        JobType::CompanyProfileResearch => {
            out.push(AppEvent::CompanyProfileUpdated);
        },
    }
    out
}

/// What marking the entity failed does: research kinds set their entity's
/// research status to `failed`, a profile analysis marks the profile row,
/// and the other kinds have no status to reset.
pub open spec fn spec_entity_failed(pre: Store, post: Store, meta: JobMetadata) -> bool {
    match meta.job_type {
        JobType::CompanyResearch => {
            &&& (if spec_has_lead(pre.leads@, meta.entity_id) {
                post.leads@ == pre.leads@.update(
                    spec_lead_index(pre.leads@, meta.entity_id),
                    Lead {
                        research_status: ResearchStatus::Failed,
                        ..pre.leads@[spec_lead_index(pre.leads@, meta.entity_id)]
                    },
                )
            } else {
                post.leads == pre.leads
            })
            &&& post.people == pre.people
            &&& post.lead_scores == pre.lead_scores
            &&& post.company_profile == pre.company_profile
        },
        JobType::PersonResearch => {
            &&& (if spec_has_person(pre.people@, meta.entity_id) {
                post.people@ == pre.people@.update(
                    spec_person_index(pre.people@, meta.entity_id),
                    Person {
                        research_status: ResearchStatus::Failed,
                        ..pre.people@[spec_person_index(pre.people@, meta.entity_id)]
                    },
                )
            } else {
                post.people == pre.people
            })
            &&& post.leads == pre.leads
            &&& post.lead_scores == pre.lead_scores
            &&& post.company_profile == pre.company_profile
        },
        JobType::CompanyProfileResearch => {
            &&& (match (pre.company_profile, post.company_profile) {
                (Some(q), Some(p)) => p == (CompanyProfile {
                    research_status: ResearchStatus::Failed,
                    ..q
                }),
                (None, None) => true,
                _ => false,
            })
            &&& post.leads == pre.leads
            &&& post.people == pre.people
            &&& post.lead_scores == pre.lead_scores
        },
        _ => {
            &&& post.leads == pre.leads
            &&& post.people == pre.people
            &&& post.lead_scores == pre.lead_scores
            &&& post.company_profile == pre.company_profile
        },
    }
}

/// Marks the owning entity's research as failed, where the kind has one.
pub fn mark_entity_failed(store: &mut Store, meta: &JobMetadata)
    requires
        old(store).wf(),
    ensures
        final(store).wf(),
        final(store).jobs == old(store).jobs,
        final(store).logs == old(store).logs,
        final(store).prompts == old(store).prompts,
        final(store).scoring_configs == old(store).scoring_configs,
        final(store).settings == old(store).settings,
        spec_entity_failed(*old(store), *final(store), *meta),
{
    match meta.job_type {
        JobType::CompanyResearch => {
            store.set_lead_research_status(meta.entity_id, ResearchStatus::Failed);
        },
        JobType::PersonResearch => {
            store.set_person_research_status(meta.entity_id, ResearchStatus::Failed);
        },
        JobType::CompanyProfileResearch => {
            store.update_company_profile_research_status(ResearchStatus::Failed);
        },
        _ => {},
    }
}

/// The job row carries this phase as its recorded completion state.
pub open spec fn spec_phase_recorded(s: Store, job_id: Seq<char>, phase: Seq<char>) -> bool {
    crate::store::spec_has_job(s.jobs@, job_id) ==> {
        let j = s.jobs@[crate::store::spec_job_index(s.jobs@, job_id)];
        j.completion_state matches Some(cs) && cs@ == phase
    }
}

/// What one completed run hands back: the events to deliver, the files to
/// remove, and the phase that was durably recorded.
#[derive(Debug)]
pub struct CompletionOutcome {
    pub events: Vec<AppEvent>,
    pub cleanup: Option<CleanupAction>,
    pub phase: CompletionPhase,
}

/// Runs the six completion phases for one finished job, each durably
/// recorded before the next begins. A failed run only marks the entity; a
/// successful one verifies the files, parses them, commits one transaction,
/// plans the file cleanup and returns the events to emit. Any error leaves
/// every domain table exactly as it was.
pub open spec fn spec_commit_room(s: Store, meta: JobMetadata, secondary: FileInput) -> bool {
    match meta.job_type {
        JobType::Scoring => spec_has_active_config(s.scoring_configs@) && s.next_score_id
            < 0x7fff_ffff_ffff_ffff,
        JobType::CompanyResearch => match secondary {
            FileInput::Content(sc) => match people_json_of(sc@) {
                Some(fs) => fs.len() < 0x7fff_ffff_ffff_ffff && s.next_person_id + fs.len()
                    <= 0x7fff_ffff_ffff_ffff,
                None => true,
            },
            _ => true,
        },
        _ => true,
    }
}

pub fn process_completion(store: &mut Store, ctx: &CompletionContext, meta: &JobMetadata,
    primary: FileInput, secondary: FileInput, enrichment: FileInput, now: i64)
    -> (r: Result<CompletionOutcome, CompletionError>)
    requires
        old(store).wf(),
    ensures
        final(store).wf(),
        final(store).logs == old(store).logs,
        final(store).prompts == old(store).prompts,
        final(store).scoring_configs == old(store).scoring_configs,
        final(store).settings == old(store).settings,
        !ctx.success ==> (r matches Ok(o) && o.phase == CompletionPhase::Failed
            && o.events@.len() == 0 && o.cleanup is None)
            && spec_entity_failed(*old(store), *final(store), *meta)
            && spec_phase_recorded(*final(store), ctx.job_id@, "failed"@),
        (ctx.success && spec_verify_admits(*meta, primary, secondary) && (primary matches
            FileInput::Content(c) ==> spec_parse_admits(*meta, c@,
            ctx.accumulated_stdout@)) && spec_commit_room(*old(store), *meta, secondary))
            ==> r is Ok,
        ctx.success ==> match r {
            Ok(o) => {
                &&& o.phase == CompletionPhase::Completed
                &&& spec_phase_recorded(*final(store), ctx.job_id@, "completed"@)
                &&& (o.cleanup matches Some(c) && (meta.job_type.spec_is_research()
                    ==> (c matches CleanupAction::RemoveDir(d)
                        && d@ == spec_parent_dir(meta.primary_output_path@)))
                    && (!meta.job_type.spec_is_research()
                    ==> (c matches CleanupAction::RemoveFile(f)
                        && f@ == meta.primary_output_path@)))
                &&& exists|v: VerifiedOutputs, parsed: ParsedOutput|
                    #![trigger spec_parsed_rel(v, *meta, ctx.accumulated_stdout@, parsed)]
                    spec_verified_rel(*meta, primary, secondary, enrichment, v)
                        && spec_parsed_rel(v, *meta, ctx.accumulated_stdout@, parsed)
                        && spec_database_effect(*old(store), *final(store), parsed, *meta,
                        now)
                &&& spec_completion_events(o.events@, *final(store), *meta)
            },
            Err(e) => {
                &&& final(store).leads == old(store).leads
                &&& final(store).people == old(store).people
                &&& final(store).lead_scores == old(store).lead_scores
                &&& final(store).company_profile == old(store).company_profile
                &&& exists|p: CompletionPhase|
                    (p == CompletionPhase::Started || p == CompletionPhase::FilesVerified
                        || p == CompletionPhase::ContentParsed) && spec_phase_recorded(
                        *final(store),
                        ctx.job_id@,
                        p.spec_str(),
                    )
                &&& match e {
                    CompletionError::FileNotFound(p) => p@ == meta.primary_output_path@
                        && primary is Missing,
                    CompletionError::FileReadError(p, m) => (p@
                        == meta.primary_output_path@ && primary == FileInput::Unreadable(m))
                        || (meta.secondary_output_path matches Some(sp) && p@ == sp@
                        && secondary == FileInput::Unreadable(m)),
                    CompletionError::ValidationError(_) => (primary matches
                        FileInput::Content(c) && trim_of(c@).len() == 0) || (meta.job_type
                        == JobType::Scoring && (primary matches FileInput::Content(c2)
                        && score_json_of(c2@) matches Some(sf)
                        && !sf.has_passes_requirements)) || (meta.job_type
                        == JobType::Scoring && !spec_has_active_config(
                        old(store).scoring_configs@)),
                    CompletionError::ParseError(_) => primary matches FileInput::Content(c)
                        && ((meta.job_type == JobType::Scoring && score_json_of(c@) is None)
                        || (meta.job_type == JobType::CompanyProfileResearch
                        && company_profile_json_of(c@) is None && spec_salvaged_json(
                        ctx.accumulated_stdout@) is None)),
                    CompletionError::DatabaseError(_) => exists|v: VerifiedOutputs,
                        parsed: ParsedOutput|
                        #![trigger spec_parsed_rel(v, *meta, ctx.accumulated_stdout@,
                            parsed)]
                        spec_verified_rel(*meta, primary, secondary, enrichment, v)
                            && spec_parsed_rel(v, *meta, ctx.accumulated_stdout@, parsed)
                            && spec_database_refusal(*old(store), parsed),
                }
            },
        },
{
    let job_id = &ctx.job_id;
    store.update_job_completion_state(job_id, Some(CompletionPhase::Started.as_str()));
    if !ctx.success {
        mark_entity_failed(store, meta);
        store.update_job_completion_state(job_id, Some(CompletionPhase::Failed.as_str()));
        return Ok(CompletionOutcome {
            events: Vec::new(),
            cleanup: None,
            phase: CompletionPhase::Failed,
        });
    }
    let outputs = match verify_output_files(meta, primary, secondary, enrichment) {
        Ok(v) => v,
        Err(e) => {
            proof {
                assert(spec_phase_recorded(*store, ctx.job_id@,
                    CompletionPhase::Started.spec_str()));
            }
            return Err(e);
        },
    };
    let ghost gout = outputs;
    store.update_job_completion_state(job_id, Some(CompletionPhase::FilesVerified.as_str()));
    let parsed = match parse_output_content(outputs, meta, ctx.accumulated_stdout.as_str()) {
        Ok(p) => p,
        Err(e) => {
            proof {
                assert(spec_phase_recorded(*store, ctx.job_id@,
                    CompletionPhase::FilesVerified.spec_str()));
            }
            return Err(e);
        },
    };
    store.update_job_completion_state(job_id, Some(CompletionPhase::ContentParsed.as_str()));
    if let Err(e) = update_database(store, &parsed, meta, now) {
        proof {
            assert(spec_phase_recorded(*store, ctx.job_id@,
                CompletionPhase::ContentParsed.spec_str()));
            if e matches CompletionError::DatabaseError(_) {
                assert(spec_database_refusal(*old(store), parsed));
                assert(spec_verified_rel(*meta, primary, secondary, enrichment, gout)
                    && spec_parsed_rel(gout, *meta, ctx.accumulated_stdout@, parsed)
                    && spec_database_refusal(*old(store), parsed));
            }
        }
        return Err(e);
    }
    store.update_job_completion_state(job_id, Some(CompletionPhase::DatabaseUpdated.as_str()));
    let cleanup = cleanup_target(meta);
    store.update_job_completion_state(job_id, Some(CompletionPhase::FilesCleanedUp.as_str()));
    let events = emit_completion_events(store, meta);
    let ghost emit_store = *store;
    store.update_job_completion_state(job_id, Some(CompletionPhase::Completed.as_str()));
    proof {
        assert(spec_database_effect(*old(store), *store, parsed, *meta, now));
        assert(spec_verified_rel(*meta, primary, secondary, enrichment, gout)
            && spec_parsed_rel(gout, *meta, ctx.accumulated_stdout@, parsed)
            && spec_database_effect(*old(store), *store, parsed, *meta, now));
        assert(emit_store.people == store.people);
        assert(spec_completion_events(events@, *store, *meta));
    }
    Ok(CompletionOutcome { events, cleanup: Some(cleanup), phase: CompletionPhase::Completed })
}

} // verus!
