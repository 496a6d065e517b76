use vstd::prelude::*;

verus! {

/// A job's lifecycle status, from admission to one of the four terminal outcomes.
#[derive(Debug, Clone, Copy, PartialEq, Eq, Structural)]
pub enum JobStatus {
    Queued,
    Running,
    Completed,
    Error,
    Timeout,
    Cancelled,
}

impl JobStatus {
    /// A status from which no further transition is allowed.
    pub open spec fn spec_is_terminal(self) -> bool {
        match self {
            JobStatus::Completed | JobStatus::Error | JobStatus::Timeout | JobStatus::Cancelled => true,
            _ => false,
        }
    }

    pub fn is_terminal(self) -> (r: bool)
        ensures
            r == self.spec_is_terminal(),
    {
        match self {
            JobStatus::Completed | JobStatus::Error | JobStatus::Timeout | JobStatus::Cancelled => true,
            _ => false,
        }
    }

    /// The transitions the job state machine allows: `queued` may start running or
    /// end directly in `error` or `cancelled`; `running` may reach any terminal status.
    pub open spec fn spec_can_transition(self, to: JobStatus) -> bool {
        match self {
            JobStatus::Queued => to == JobStatus::Running || to == JobStatus::Error
                || to == JobStatus::Cancelled,
            JobStatus::Running => to.spec_is_terminal(),
            _ => false,
        }
    }

    pub fn can_transition(self, to: JobStatus) -> (r: bool)
        ensures
            r == self.spec_can_transition(to),
    {
        match self {
            JobStatus::Queued => matches!(to, JobStatus::Running | JobStatus::Error | JobStatus::Cancelled),
            JobStatus::Running => to.is_terminal(),
            _ => false,
        }
    }

    /// The status name as it is written in the durable store.
    pub fn as_str(self) -> (r: &'static str)
        ensures
            r@ == self.spec_str(),
    {
        match self {
            JobStatus::Queued => "queued",
            JobStatus::Running => "running",
            JobStatus::Completed => "completed",
            JobStatus::Error => "error",
            JobStatus::Timeout => "timeout",
            JobStatus::Cancelled => "cancelled",
        }
    }

    pub open spec fn spec_str(self) -> Seq<char> {
        match self {
            JobStatus::Queued => "queued"@,
            JobStatus::Running => "running"@,
            JobStatus::Completed => "completed"@,
            JobStatus::Error => "error"@,
            JobStatus::Timeout => "timeout"@,
            JobStatus::Cancelled => "cancelled"@,
        }
    }
}

/// The research status of a lead or person, written by the scheduler.
#[derive(Debug, Clone, Copy, PartialEq, Eq, Structural)]
pub enum ResearchStatus {
    Pending,
    InProgress,
    Completed,
    Failed,
}

impl ResearchStatus {
    pub fn as_str(self) -> (r: &'static str)
        ensures
            r@ == self.spec_str(),
    {
        match self {
            ResearchStatus::Pending => "pending",
            ResearchStatus::InProgress => "in_progress",
            ResearchStatus::Completed => "completed",
            ResearchStatus::Failed => "failed",
        }
    }

    pub open spec fn spec_str(self) -> Seq<char> {
        match self {
            ResearchStatus::Pending => "pending"@,
            ResearchStatus::InProgress => "in_progress"@,
            ResearchStatus::Completed => "completed"@,
            ResearchStatus::Failed => "failed"@,
        }
    }
}

/// A company lead. Revenue is held as a whole amount so that the record
/// stays within the integer domain the contracts speak of.
#[derive(Debug)]
pub struct Lead {
    pub id: i64,
    pub company_name: String,
    pub website: Option<String>,
    pub industry: Option<String>,
    pub sub_industry: Option<String>,
    pub employees: Option<i64>,
    pub employee_range: Option<String>,
    pub revenue: Option<i64>,
    pub revenue_range: Option<String>,
    pub company_linkedin_url: Option<String>,
    pub city: Option<String>,
    pub state: Option<String>,
    pub country: Option<String>,
    pub research_status: ResearchStatus,
    pub researched_at: Option<i64>,
    pub user_status: String,
    pub created_at: i64,
    pub company_profile: Option<String>,
}

#[derive(Debug)]
pub struct NewLead {
    pub company_name: String,
    pub website: Option<String>,
    pub city: Option<String>,
    pub state: Option<String>,
    pub country: Option<String>,
}

#[derive(Debug)]
pub struct Person {
    pub id: i64,
    pub lead_id: Option<i64>,
    pub first_name: String,
    pub last_name: String,
    pub email: Option<String>,
    pub title: Option<String>,
    pub management_level: Option<String>,
    pub linkedin_url: Option<String>,
    pub year_joined: Option<i64>,
    pub person_profile: Option<String>,
    pub research_status: ResearchStatus,
    pub researched_at: Option<i64>,
    pub user_status: String,
    pub conversation_topics: Option<String>,
    pub conversation_generated_at: Option<i64>,
    pub created_at: i64,
}

#[derive(Debug)]
pub struct PersonWithCompany {
    pub id: i64,
    pub lead_id: Option<i64>,
    pub first_name: String,
    pub last_name: String,
    pub email: Option<String>,
    pub title: Option<String>,
    pub management_level: Option<String>,
    pub linkedin_url: Option<String>,
    pub year_joined: Option<i64>,
    pub person_profile: Option<String>,
    pub research_status: ResearchStatus,
    pub researched_at: Option<i64>,
    pub user_status: String,
    pub conversation_topics: Option<String>,
    pub conversation_generated_at: Option<i64>,
    pub created_at: i64,
    pub company_name: Option<String>,
    pub company_website: Option<String>,
    pub company_industry: Option<String>,
}

#[derive(Debug)]
pub struct NewPerson {
    pub first_name: String,
    pub last_name: String,
    pub email: Option<String>,
    pub title: Option<String>,
    pub linkedin_url: Option<String>,
    pub lead_id: Option<i64>,
}

#[derive(Debug)]
pub struct Prompt {
    pub id: i64,
    pub prompt_type: String,
    pub content: String,
    pub created_at: i64,
    pub updated_at: i64,
}

#[derive(Debug)]
pub struct ScoringConfig {
    pub id: i64,
    pub name: String,
    pub is_active: bool,
    pub required_characteristics: String,
    pub demand_signifiers: String,
    pub tier_hot_min: i64,
    pub tier_warm_min: i64,
    pub tier_nurture_min: i64,
    pub created_at: i64,
    pub updated_at: i64,
}

#[derive(Debug)]
pub struct LeadScore {
    pub id: i64,
    pub lead_id: i64,
    pub config_id: i64,
    pub passes_requirements: bool,
    pub requirement_results: String,
    pub total_score: i64,
    pub score_breakdown: String,
    pub tier: String,
    pub scoring_notes: Option<String>,
    pub scored_at: Option<i64>,
    pub created_at: i64,
}

/// One scheduled invocation of the external worker, as recorded durably.
#[derive(Debug)]
pub struct Job {
    pub id: String,
    pub job_type: String,
    pub entity_id: i64,
    pub entity_label: String,
    pub status: JobStatus,
    pub prompt: String,
    pub model: Option<String>,
    pub working_dir: String,
    pub output_path: Option<String>,
    pub exit_code: Option<i32>,
    pub error_message: Option<String>,
    pub created_at: i64,
    pub started_at: Option<i64>,
    pub completed_at: Option<i64>,
    pub pid: Option<i64>,
    pub ai_session_id: Option<String>,
    pub ai_model: Option<String>,
    pub last_event_index: i64,
    pub stdout_truncated: bool,
    pub stderr_truncated: bool,
    pub total_stdout_bytes: i64,
    pub total_stderr_bytes: i64,
    pub completion_state: Option<String>,
}

impl Job {
    /// The per-record part of the store invariant: timestamps are present exactly
    /// when the status demands them and never run backwards.
    pub open spec fn wf(self) -> bool {
        &&& (self.status == JobStatus::Queued ==> self.started_at is None)
        &&& (self.status == JobStatus::Running ==> self.started_at is Some)
        &&& (self.status.spec_is_terminal() <==> self.completed_at is Some)
        &&& (self.started_at is Some ==> self.created_at <= self.started_at->0)
        &&& (self.completed_at is Some ==> self.created_at <= self.completed_at->0)
        &&& (self.started_at is Some && self.completed_at is Some
            ==> self.started_at->0 <= self.completed_at->0)
    }
}

#[derive(Debug)]
pub struct NewJob {
    pub id: String,
    pub job_type: String,
    pub entity_id: i64,
    pub entity_label: String,
    pub prompt: String,
    pub model: Option<String>,
    pub working_dir: String,
    pub output_path: Option<String>,
}

/// One line of captured output, as recorded durably.
#[derive(Debug)]
pub struct JobLog {
    pub id: i64,
    pub job_id: String,
    pub log_type: String,
    pub content: String,
    pub tool_name: Option<String>,
    pub timestamp: i64,
    pub sequence: i64,
    pub source: String,
}

#[derive(Debug)]
pub struct Settings {
    pub model: String,
    pub use_chrome: bool,
    pub use_gateway: bool,
    pub theme: String,
    pub updated_at: i64,
}

#[derive(Debug)]
pub struct OrgBinding {
    pub org_id: String,
    pub org_name: String,
    pub bound_at: i64,
    pub bound_by_user_id: String,
    pub bound_by_user_email: String,
    pub machine_id: String,
}

#[derive(Debug)]
pub struct MachineBinding {
    pub id: i64,
    pub machine_id: String,
}

#[derive(Debug)]
pub struct SubscriptionState {
    pub id: i64,
    pub encrypted_token: String,
    pub subscription_status: String,
    pub subscription_expires_at: Option<i64>,
    pub token_issued_at: i64,
    pub token_expires_at: i64,
    pub last_validated_at: i64,
    pub device_fingerprint: String,
    pub grace_period_ends_at: Option<i64>,
}

#[derive(Debug)]
pub struct SubscriptionStatus {
    pub status: String,
    pub is_valid: bool,
    pub grace_period_ends_at: Option<i64>,
    pub days_until_lockout: Option<i64>,
}

#[derive(Debug)]
pub struct LockoutStatus {
    pub locked: bool,
    pub reason: Option<String>,
    pub grace_period_ends_at: Option<i64>,
}

#[derive(Debug)]
pub struct Note {
    pub id: i64,
    pub entity_type: String,
    pub entity_id: i64,
    pub content: String,
    pub created_at: i64,
}

#[derive(Debug)]
pub struct NewNote {
    pub entity_type: String,
    pub entity_id: i64,
    pub content: String,
}

#[derive(Debug)]
pub struct CompanyProfile {
    pub id: i64,
    pub company_name: String,
    pub product_name: String,
    pub website: String,
    pub target_audience: String,
    pub usps: String,
    pub marketing_narrative: String,
    pub sales_narrative: String,
    pub competitors: String,
    pub market_insights: String,
    pub raw_analysis: String,
    pub research_status: ResearchStatus,
    pub researched_at: Option<i64>,
    pub created_at: i64,
    pub updated_at: i64,
}

#[derive(Debug)]
pub struct NewCompanyProfile {
    pub company_name: String,
    pub product_name: String,
    pub website: String,
}

/// Clones an optional string, preserving its value exactly.
pub fn clone_opt_string(o: &Option<String>) -> (r: Option<String>)
    ensures
        r == *o,
{
    match o {
        Some(s) => Some(s.clone()),
        None => None,
    }
}

impl Clone for Lead {
    fn clone(&self) -> (r: Self)
        ensures
            r == *self,
    {
        Lead {
            id: self.id,
            company_name: self.company_name.clone(),
            website: clone_opt_string(&self.website),
            industry: clone_opt_string(&self.industry),
            sub_industry: clone_opt_string(&self.sub_industry),
            employees: self.employees,
            employee_range: clone_opt_string(&self.employee_range),
            revenue: self.revenue,
            revenue_range: clone_opt_string(&self.revenue_range),
            company_linkedin_url: clone_opt_string(&self.company_linkedin_url),
            city: clone_opt_string(&self.city),
            state: clone_opt_string(&self.state),
            country: clone_opt_string(&self.country),
            research_status: self.research_status,
            researched_at: self.researched_at,
            user_status: self.user_status.clone(),
            created_at: self.created_at,
            company_profile: clone_opt_string(&self.company_profile),
        }
    }
}

impl Clone for Person {
    fn clone(&self) -> (r: Self)
        ensures
            r == *self,
    {
        Person {
            id: self.id,
            lead_id: self.lead_id,
            first_name: self.first_name.clone(),
            last_name: self.last_name.clone(),
            email: clone_opt_string(&self.email),
            title: clone_opt_string(&self.title),
            management_level: clone_opt_string(&self.management_level),
            linkedin_url: clone_opt_string(&self.linkedin_url),
            year_joined: self.year_joined,
            person_profile: clone_opt_string(&self.person_profile),
            research_status: self.research_status,
            researched_at: self.researched_at,
            user_status: self.user_status.clone(),
            conversation_topics: clone_opt_string(&self.conversation_topics),
            conversation_generated_at: self.conversation_generated_at,
            created_at: self.created_at,
        }
    }
}

impl Clone for Job {
    fn clone(&self) -> (r: Self)
        ensures
            r == *self,
    {
        Job {
            id: self.id.clone(),
            job_type: self.job_type.clone(),
            entity_id: self.entity_id,
            entity_label: self.entity_label.clone(),
            status: self.status,
            prompt: self.prompt.clone(),
            model: clone_opt_string(&self.model),
            working_dir: self.working_dir.clone(),
            output_path: clone_opt_string(&self.output_path),
            exit_code: self.exit_code,
            error_message: clone_opt_string(&self.error_message),
            created_at: self.created_at,
            started_at: self.started_at,
            completed_at: self.completed_at,
            pid: self.pid,
            ai_session_id: clone_opt_string(&self.ai_session_id),
            ai_model: clone_opt_string(&self.ai_model),
            last_event_index: self.last_event_index,
            stdout_truncated: self.stdout_truncated,
            stderr_truncated: self.stderr_truncated,
            total_stdout_bytes: self.total_stdout_bytes,
            total_stderr_bytes: self.total_stderr_bytes,
            completion_state: clone_opt_string(&self.completion_state),
        }
    }
}

impl Clone for JobLog {
    fn clone(&self) -> (r: Self)
        ensures
            r == *self,
    {
        JobLog {
            id: self.id,
            job_id: self.job_id.clone(),
            log_type: self.log_type.clone(),
            content: self.content.clone(),
            tool_name: clone_opt_string(&self.tool_name),
            timestamp: self.timestamp,
            sequence: self.sequence,
            source: self.source.clone(),
        }
    }
}

impl Clone for Settings {
    fn clone(&self) -> (r: Self)
        ensures
            r == *self,
    {
        Settings {
            model: self.model.clone(),
            use_chrome: self.use_chrome,
            use_gateway: self.use_gateway,
            theme: self.theme.clone(),
            updated_at: self.updated_at,
        }
    }
}

impl Clone for SubscriptionState {
    fn clone(&self) -> (r: Self)
        ensures
            r == *self,
    {
        SubscriptionState {
            id: self.id,
            encrypted_token: self.encrypted_token.clone(),
            subscription_status: self.subscription_status.clone(),
            subscription_expires_at: self.subscription_expires_at,
            token_issued_at: self.token_issued_at,
            token_expires_at: self.token_expires_at,
            last_validated_at: self.last_validated_at,
            device_fingerprint: self.device_fingerprint.clone(),
            grace_period_ends_at: self.grace_period_ends_at,
        }
    }
}

} // verus!
