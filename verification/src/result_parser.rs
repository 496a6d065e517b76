use vstd::prelude::*;
use crate::schema::clone_opt_string;

verus! {

/// The semantic kind of a job: it decides which prompt is built, how long
/// the child may run, and how its output is parsed and committed.
#[derive(Debug, Clone, Copy, PartialEq, Eq, Structural)]
pub enum JobType {
    CompanyResearch,
    PersonResearch,
    Scoring,
    Conversation,
    CompanyProfileResearch,
}

impl JobType {
    /// The kind's name as written in the durable store.
    pub fn as_str(self) -> (r: &'static str)
        ensures
            r@ == self.spec_str(),
    {
        match self {
            JobType::CompanyResearch => "company_research",
            JobType::PersonResearch => "person_research",
            JobType::Scoring => "scoring",
            JobType::Conversation => "conversation",
            JobType::CompanyProfileResearch => "company_profile_research",
        }
    }

    pub open spec fn spec_str(self) -> Seq<char> {
        match self {
            JobType::CompanyResearch => "company_research"@,
            JobType::PersonResearch => "person_research"@,
            JobType::Scoring => "scoring"@,
            JobType::Conversation => "conversation"@,
            JobType::CompanyProfileResearch => "company_profile_research"@,
        }
    }

    /// How long a running child of this kind may take before it times out:
    /// scoring involves little web activity and gets five minutes, every
    /// other kind ten.
    pub open spec fn spec_timeout_secs(self) -> u64 {
        match self {
            JobType::Scoring => crate::SCORING_TIMEOUT_SECS,
            _ => crate::JOB_TIMEOUT_SECS,
        }
    }

    pub fn timeout_secs(self) -> (r: u64)
        ensures
            r == self.spec_timeout_secs(),
    {
        match self {
            JobType::Scoring => crate::SCORING_TIMEOUT_SECS,
            _ => crate::JOB_TIMEOUT_SECS,
        }
    }

    /// Whether this kind writes a per-entity research directory that the
    /// completion handler removes whole.
    pub open spec fn spec_is_research(self) -> bool {
        self == JobType::CompanyResearch || self == JobType::PersonResearch
    }

    pub fn is_research(self) -> (r: bool)
        ensures
            r == self.spec_is_research(),
    {
        matches!(self, JobType::CompanyResearch | JobType::PersonResearch)
    }
}

/// What the scheduler must know about a job besides its prompt: the kind,
/// the entity it works on, and where the child was told to write its output.
#[derive(Debug)]
pub struct JobMetadata {
    pub job_type: JobType,
    pub entity_id: i64,
    pub primary_output_path: String,
    pub secondary_output_path: Option<String>,
    pub enrichment_output_path: Option<String>,
}

impl Clone for JobMetadata {
    fn clone(&self) -> (r: Self)
        ensures
            r == *self,
    {
        JobMetadata {
            job_type: self.job_type,
            entity_id: self.entity_id,
            primary_output_path: self.primary_output_path.clone(),
            secondary_output_path: clone_opt_string(&self.secondary_output_path),
            enrichment_output_path: clone_opt_string(&self.enrichment_output_path),
        }
    }
}

} // verus!
