use liidi::enrichment::LeadEnrichment;
use liidi::schema::{JobStatus, NewJob, NewLead, NewPerson, ResearchStatus};
use liidi::store::{BatchLogEntry, Store, StoreError};

fn new_job(id: &str, job_type: &str, entity_id: i64) -> NewJob {
    NewJob {
        id: id.to_string(),
        job_type: job_type.to_string(),
        entity_id,
        entity_label: "Acme".to_string(),
        prompt: "prompt text".to_string(),
        model: Some("sonnet".to_string()),
        working_dir: "/tmp".to_string(),
        output_path: Some("/tmp/out.md".to_string()),
    }
}

fn log_entry(job_id: &str, seq: i64, content: &str) -> BatchLogEntry {
    BatchLogEntry {
        job_id: job_id.to_string(),
        log_type: "info".to_string(),
        content: content.to_string(),
        tool_name: None,
        sequence: seq,
        source: "stdout".to_string(),
    }
}

#[test]
fn job_rows_follow_the_status_machine() {
    let mut store = Store::new(1_000);
    let id = "job-1".to_string();
    store.insert_job(&new_job("job-1", "company_research", 42), 1_000).unwrap();
    let row = store.get_job(&id).unwrap();
    assert_eq!(row.status, JobStatus::Queued);
    assert_eq!(row.created_at, 1_000);
    assert!(row.started_at.is_none());
    assert!(row.completed_at.is_none());

    // A duplicate id is refused.
    assert_eq!(
        store.insert_job(&new_job("job-1", "scoring", 1), 1_001),
        Err(StoreError::Constraint)
    );

    store.update_job_status(&id, JobStatus::Running, None, None, 1_005).unwrap();
    let row = store.get_job(&id).unwrap();
    assert_eq!(row.status, JobStatus::Running);
    assert_eq!(row.started_at, Some(1_005));

    // A terminal row carries its exit code, message and completion time.
    store
        .update_job_status(&id, JobStatus::Completed, Some(0), None, 1_009)
        .unwrap();
    let row = store.get_job(&id).unwrap();
    assert_eq!(row.status, JobStatus::Completed);
    assert_eq!(row.exit_code, Some(0));
    assert_eq!(row.completed_at, Some(1_009));
    assert!(row.created_at <= row.started_at.unwrap());
    assert!(row.started_at.unwrap() <= row.completed_at.unwrap());

    // No transition leaves a terminal status.
    assert_eq!(
        store.update_job_status(&id, JobStatus::Running, None, None, 1_010),
        Err(StoreError::InvalidTransition)
    );
}

#[test]
fn queued_may_end_directly_in_error_or_cancelled() {
    let mut store = Store::new(0);
    store.insert_job(&new_job("a", "scoring", 1), 10).unwrap();
    store.insert_job(&new_job("b", "scoring", 2), 11).unwrap();
    let a = "a".to_string();
    let b = "b".to_string();
    store
        .update_job_status(&a, JobStatus::Error, None, Some("Queue timeout - server busy"), 40)
        .unwrap();
    store
        .update_job_status(&b, JobStatus::Cancelled, None, Some("Cancelled while queued"), 41)
        .unwrap();
    assert_eq!(store.get_job(&a).unwrap().status, JobStatus::Error);
    assert_eq!(store.get_job(&b).unwrap().status, JobStatus::Cancelled);
    // queued -> completed is not a legal transition
    let mut s2 = Store::new(0);
    s2.insert_job(&new_job("c", "scoring", 3), 12).unwrap();
    assert_eq!(
        s2.update_job_status(&"c".to_string(), JobStatus::Completed, Some(0), None, 13),
        Err(StoreError::InvalidTransition)
    );
}

#[test]
fn log_batches_are_contiguous_and_replay_is_rejected() {
    let mut store = Store::new(0);
    store.insert_job(&new_job("j", "conversation", 9), 5).unwrap();
    let j = "j".to_string();

    let batch1 = vec![log_entry("j", 0, "alpha"), log_entry("j", 1, "beta")];
    assert_eq!(store.insert_job_logs_batch(&batch1, 50), Ok(2));

    // Replaying the same sequence range violates the unique constraint.
    assert_eq!(store.insert_job_logs_batch(&batch1, 51), Err(StoreError::Constraint));

    // A gap is refused too.
    let gap = vec![log_entry("j", 5, "gamma")];
    assert_eq!(store.insert_job_logs_batch(&gap, 52), Err(StoreError::Constraint));

    // The continuation is accepted.
    let batch2 = vec![log_entry("j", 2, "gamma")];
    assert_eq!(store.insert_job_logs_batch(&batch2, 53), Ok(1));

    let logs = store.get_job_logs(&j, None, None);
    assert_eq!(logs.len(), 3);
    for (k, row) in logs.iter().enumerate() {
        assert_eq!(row.sequence, k as i64);
    }
    assert_eq!(logs[0].content, "alpha");
    assert_eq!(logs[2].content, "gamma");

    // A batch for an unknown job is refused by the foreign key.
    let orphan = vec![log_entry("ghost", 0, "x")];
    assert_eq!(store.insert_job_logs_batch(&orphan, 54), Err(StoreError::Constraint));

    // after_sequence and limit narrow the read.
    let tail = store.get_job_logs(&j, Some(0), None);
    assert_eq!(tail.len(), 2);
    assert_eq!(tail[0].sequence, 1);
    let first_two = store.get_job_logs(&j, None, Some(2));
    assert_eq!(first_two.len(), 2);
}

#[test]
fn cleanup_drops_old_jobs_and_their_logs() {
    let mut store = Store::new(0);
    let day = 86_400;
    store.insert_job(&new_job("old", "scoring", 1), 1 * day).unwrap();
    store.insert_job(&new_job("fresh", "scoring", 2), 30 * day).unwrap();
    store
        .insert_job_logs_batch(&vec![log_entry("old", 0, "stale line")], 2 * day)
        .unwrap();
    let deleted = store.cleanup_old_jobs(7, 31 * day);
    assert_eq!(deleted, 1);
    assert!(store.get_job(&"old".to_string()).is_none());
    assert!(store.get_job(&"fresh".to_string()).is_some());
    assert_eq!(store.get_job_logs(&"old".to_string(), None, None).len(), 0);
}

#[test]
fn delete_job_removes_row_and_logs() {
    let mut store = Store::new(0);
    store.insert_job(&new_job("d", "scoring", 1), 10).unwrap();
    store
        .insert_job_logs_batch(&vec![log_entry("d", 0, "line")], 11)
        .unwrap();
    store.delete_job(&"d".to_string());
    assert!(store.get_job(&"d".to_string()).is_none());
    assert_eq!(store.get_job_logs(&"d".to_string(), None, None).len(), 0);
}

#[test]
fn enrichment_fills_only_empty_columns() {
    let mut store = Store::new(0);
    let lead_id = store
        .insert_lead(
            &NewLead {
                company_name: "Acme".to_string(),
                website: Some("https://acme.test".to_string()),
                city: None,
                state: None,
                country: None,
            },
            100,
        )
        .unwrap();
    let e = LeadEnrichment {
        website: Some("https://other.test".to_string()),
        industry: Some("Software".to_string()),
        sub_industry: None,
        employees: Some(50),
        employee_range: None,
        revenue: None,
        revenue_range: None,
        company_linkedin_url: None,
        city: Some("Oslo".to_string()),
        state: None,
        country: None,
    };
    assert_eq!(store.enrich_lead(lead_id, &e), 1);
    let lead = store.get_lead(lead_id).unwrap();
    // The filled column keeps its value; the empty ones take the new data.
    assert_eq!(lead.website.as_deref(), Some("https://acme.test"));
    assert_eq!(lead.industry.as_deref(), Some("Software"));
    assert_eq!(lead.employees, Some(50));
    assert_eq!(lead.city.as_deref(), Some("Oslo"));
    assert_eq!(store.enrich_lead(999, &e), 0);
}

#[test]
fn active_job_lookup_finds_the_newest_match() {
    let mut store = Store::new(0);
    store.insert_job(&new_job("j1", "company_research", 7), 10).unwrap();
    store.insert_job(&new_job("j2", "company_research", 7), 20).unwrap();
    store.insert_job(&new_job("j3", "scoring", 7), 30).unwrap();
    let hit = store.get_active_job_for_entity(7, "company_research").unwrap();
    assert_eq!(hit.id, "j2");
    assert!(store.get_active_job_for_entity(8, "company_research").is_none());
    // A terminal row is no longer active.
    store
        .update_job_status(&"j2".to_string(), JobStatus::Cancelled, None, None, 40)
        .unwrap();
    let hit = store.get_active_job_for_entity(7, "company_research").unwrap();
    assert_eq!(hit.id, "j1");
}

#[test]
fn scoring_config_and_scores_replace_cleanly() {
    let mut store = Store::new(0);
    let cfg = store
        .save_scoring_config("default", "[]", "[]", 80, 50, 30, 100)
        .unwrap();
    let newest = store.save_scoring_config("tuned", "[]", "[]", 85, 55, 35, 200).unwrap();
    let active = store.get_active_scoring_config().unwrap();
    assert_eq!(active.id, newest);
    assert!(newest > cfg);
    let lead_id = store
        .insert_lead(
            &NewLead {
                company_name: "Acme".to_string(),
                website: None,
                city: None,
                state: None,
                country: None,
            },
            0,
        )
        .unwrap();
    store
        .save_lead_score(lead_id, newest, true, "[]", 70, "[]", "warm", None, 300)
        .unwrap();
    store
        .save_lead_score(lead_id, newest, true, "[]", 90, "[]", "hot", Some("better"), 400)
        .unwrap();
    // At most one score row per lead.
    assert_eq!(store.lead_scores.len(), 1);
    let score = store.get_lead_score(lead_id).unwrap();
    assert_eq!(score.total_score, 90);
    assert_eq!(score.tier, "hot");
    store.delete_lead_score(lead_id);
    assert!(store.get_lead_score(lead_id).is_none());
}

#[test]
fn people_and_prompts_round_trip() {
    let mut store = Store::new(0);
    let pid = store
        .insert_person(
            &NewPerson {
                first_name: "Ada".to_string(),
                last_name: "Berg".to_string(),
                email: None,
                title: Some("CTO".to_string()),
                linkedin_url: None,
                lead_id: Some(1),
            },
            50,
        )
        .unwrap();
    assert_eq!(store.get_person_raw(pid).unwrap().first_name, "Ada");
    assert!(store.set_person_research_status(pid, ResearchStatus::InProgress));
    assert_eq!(
        store.get_person_raw(pid).unwrap().research_status,
        ResearchStatus::InProgress
    );
    store.save_prompt_by_type("company", "research the company", 60).unwrap();
    store.save_prompt_by_type("company", "research it harder", 70).unwrap();
    let prompt = store.get_prompt_by_type("company").unwrap();
    assert_eq!(prompt.content, "research it harder");
    assert!(store.get_prompt_by_type("person").is_none());
}

#[test]
fn recent_jobs_come_newest_first() {
    let mut store = Store::new(0);
    store.insert_job(&new_job("a", "scoring", 1), 10).unwrap();
    store.insert_job(&new_job("b", "scoring", 2), 20).unwrap();
    store.insert_job(&new_job("c", "scoring", 3), 30).unwrap();
    let recent = store.get_recent_jobs(2);
    assert_eq!(recent.len(), 2);
    assert_eq!(recent[0].id, "c");
    assert_eq!(recent[1].id, "b");
    assert_eq!(store.get_active_jobs().len(), 3);
}
