use vstd::prelude::*;

verus! {

/// Payload of the push event announcing a changed lead.
#[derive(Debug, Clone, Copy, PartialEq, Eq, Structural)]
pub struct LeadUpdatedPayload {
    pub id: i64,
}

/// Payload of the push event announcing a changed person.
#[derive(Debug, Clone, Copy, PartialEq, Eq, Structural)]
pub struct PersonUpdatedPayload {
    pub id: i64,
    pub lead_id: Option<i64>,
}

/// Payload of the push event announcing a freshly scored lead.
#[derive(Debug, Clone, Copy, PartialEq, Eq, Structural)]
pub struct LeadScoredPayload {
    pub lead_id: i64,
}

/// Payload of the push event announcing a lead's people were replaced.
#[derive(Debug, Clone, Copy, PartialEq, Eq, Structural)]
pub struct PeopleBulkCreatedPayload {
    pub lead_id: i64,
}

/// Payload of the push event announcing a created lead.
#[derive(Debug, Clone, Copy, PartialEq, Eq, Structural)]
pub struct LeadCreatedPayload {
    pub id: i64,
}

/// Payload of the push event announcing deleted leads.
#[derive(Debug)]
pub struct LeadDeletedPayload {
    pub ids: Vec<i64>,
}

/// Payload of the push event announcing deleted people.
#[derive(Debug)]
pub struct PersonDeletedPayload {
    pub ids: Vec<i64>,
}

/// Payload of the push event announcing a job's status change.
#[derive(Debug)]
pub struct JobStatusChangedPayload {
    pub job_id: String,
    pub status: String,
    pub exit_code: Option<i32>,
}

/// Payload of the push event announcing freshly persisted log rows.
#[derive(Debug)]
pub struct JobLogsAppendedPayload {
    pub job_id: String,
    pub count: i64,
    pub last_sequence: i64,
}

/// Payload of the push event announcing an admitted job.
#[derive(Debug)]
pub struct JobCreatedPayload {
    pub job_id: String,
    pub job_type: String,
    pub entity_id: i64,
    pub entity_label: String,
}

/// One fire-and-forget notification for subscribers. The library decides
/// which events to emit; delivery is the caller's concern.
#[derive(Debug)]
pub enum AppEvent {
    LeadUpdated(LeadUpdatedPayload),
    PersonUpdated(PersonUpdatedPayload),
    LeadScored(LeadScoredPayload),
    PeopleBulkCreated(PeopleBulkCreatedPayload),
    LeadCreated(LeadCreatedPayload),
    JobStatusChanged(JobStatusChangedPayload),
    JobLogsAppended(JobLogsAppendedPayload),
    JobCreated(JobCreatedPayload),
    CompanyProfileUpdated,
}

impl Clone for JobStatusChangedPayload {
    fn clone(&self) -> (r: Self)
        ensures
            r == *self,
    {
        JobStatusChangedPayload {
            job_id: self.job_id.clone(),
            status: self.status.clone(),
            exit_code: self.exit_code,
        }
    }
}

} // verus!
