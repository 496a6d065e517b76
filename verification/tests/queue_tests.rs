use liidi::queue::{EntityContext, EntityType, JobGuard, JobQueue, QueueWaitOutcome, RunOutcome,
    build_child_args, classify_exit, gateway_env};
use liidi::result_parser::{JobMetadata, JobType};
use liidi::schema::{JobStatus, NewLead, ResearchStatus};
use liidi::store::Store;
use liidi::{GRACEFUL_SHUTDOWN_SECS, JOB_TIMEOUT_SECS, MAX_CONCURRENT_JOBS, QUEUE_TIMEOUT_SECS,
    SCORING_TIMEOUT_SECS, STREAM_DRAIN_TIMEOUT_SECS};

fn research_metadata(entity_id: i64) -> JobMetadata {
    JobMetadata {
        job_type: JobType::CompanyResearch,
        entity_id,
        primary_output_path: "/data/research/company_1_acme/company_profile.md".to_string(),
        secondary_output_path: Some("/data/research/company_1_acme/people.json".to_string()),
        enrichment_output_path: Some("/data/research/company_1_acme/enrichment.json".to_string()),
    }
}

#[test]
fn scheduler_constants_match_the_design() {
    assert_eq!(MAX_CONCURRENT_JOBS, 5);
    assert_eq!(QUEUE_TIMEOUT_SECS, 30);
    assert_eq!(JOB_TIMEOUT_SECS, 600);
    assert_eq!(SCORING_TIMEOUT_SECS, 300);
    assert_eq!(GRACEFUL_SHUTDOWN_SECS, 2);
    assert_eq!(STREAM_DRAIN_TIMEOUT_SECS, 5);
    assert_eq!(JobType::Scoring.timeout_secs(), 300);
    assert_eq!(JobType::CompanyResearch.timeout_secs(), 600);
    assert_eq!(JobType::CompanyProfileResearch.timeout_secs(), 600);
}

#[test]
fn admission_records_the_row_before_anything_runs() {
    let mut store = Store::new(0);
    let mut queue = JobQueue::new();
    let (id, ev) = queue
        .submit(&mut store, &research_metadata(42), "Acme", "full prompt", "/work")
        .unwrap();
    assert_eq!(ev.job_id, id);
    assert_eq!(ev.job_type, "company_research");
    assert_eq!(ev.entity_label, "Acme");
    let row = store.get_job(&id).unwrap();
    assert_eq!(row.status, JobStatus::Queued);
    assert_eq!(row.model.as_deref(), Some("sonnet"));
    assert_eq!(row.prompt, "full prompt");
    assert_eq!(queue.get_active_jobs(), vec![id.clone()]);
}

#[test]
fn cancellation_while_queued_rolls_the_entity_back() {
    // Six rapid submissions: five acquire permits, the sixth sits queued.
    let mut store = Store::new(0);
    let mut queue = JobQueue::new();
    let lead_id = store
        .insert_lead(
            &NewLead {
                company_name: "Acme".to_string(),
                website: None,
                city: None,
                state: None,
                country: None,
            },
            0,
        )
        .unwrap();
    store.set_lead_research_status(lead_id, ResearchStatus::InProgress);
    let mut ids = Vec::new();
    for k in 0..6 {
        let (id, _) = queue
            .submit(&mut store, &research_metadata(100 + k), "Acme", "p", "/work")
            .unwrap();
        ids.push(id);
    }
    for k in 0..5 {
        let (ev, _) = queue.handle_queue_wait(
            &mut store,
            &ids[k],
            &None,
            QueueWaitOutcome::PermitAcquired,
            10,
        );
        assert_eq!(ev.unwrap().status, "running");
    }
    assert_eq!(queue.permits_in_use, MAX_CONCURRENT_JOBS);
    // The store never holds more running rows than the permit bound.
    let running = store
        .get_active_jobs()
        .iter()
        .filter(|j| j.status == JobStatus::Running)
        .count();
    assert!(running <= MAX_CONCURRENT_JOBS);
    assert_eq!(running, 5);

    // Cancel the sixth before it gets a permit.
    let sixth = ids[5].clone();
    assert!(queue.kill_job(&sixth));
    let ctx = Some(EntityContext {
        entity_type: EntityType::Lead,
        entity_id: lead_id,
        rollback_status: ResearchStatus::Pending,
    });
    let (ev, entity_events) = queue.handle_queue_wait(
        &mut store,
        &sixth,
        &ctx,
        QueueWaitOutcome::Cancelled,
        20,
    );
    assert_eq!(ev.unwrap().status, "cancelled");
    assert_eq!(entity_events.len(), 1);
    let row = store.get_job(&sixth).unwrap();
    assert_eq!(row.status, JobStatus::Cancelled);
    assert_eq!(row.error_message.as_deref(), Some("Cancelled while queued"));
    assert!(row.started_at.is_none(), "no child was ever spawned");
    assert_eq!(
        store.get_lead(lead_id).unwrap().research_status,
        ResearchStatus::Pending
    );
    assert!(!queue.get_active_jobs().contains(&sixth));
}

#[test]
fn queue_timeout_fails_the_job_with_the_standing_message() {
    let mut store = Store::new(0);
    let mut queue = JobQueue::new();
    let (id, _) = queue
        .submit(&mut store, &research_metadata(7), "Acme", "p", "/w")
        .unwrap();
    let (ev, _) = queue.handle_queue_wait(
        &mut store,
        &id,
        &None,
        QueueWaitOutcome::QueueTimeout,
        40,
    );
    assert_eq!(ev.unwrap().status, "error");
    let row = store.get_job(&id).unwrap();
    assert_eq!(row.status, JobStatus::Error);
    assert_eq!(row.error_message.as_deref(), Some("Queue timeout - server busy"));
}

#[test]
fn exit_classification_matches_the_state_machine() {
    assert_eq!(
        classify_exit(RunOutcome::Exited(0)),
        (JobStatus::Completed, Some(0), true)
    );
    assert_eq!(
        classify_exit(RunOutcome::Exited(3)),
        (JobStatus::Error, Some(3), false)
    );
    assert_eq!(classify_exit(RunOutcome::WaitFailed), (JobStatus::Error, None, false));
    assert_eq!(classify_exit(RunOutcome::ExecTimeout), (JobStatus::Timeout, None, false));
    assert_eq!(classify_exit(RunOutcome::Cancelled), (JobStatus::Cancelled, None, false));
}

#[test]
fn child_arguments_keep_the_prompt_last() {
    let args = build_child_args("sonnet", false, "the prompt");
    assert_eq!(
        args,
        vec![
            "-p",
            "--output-format",
            "stream-json",
            "--verbose",
            "--dangerously-skip-permissions",
            "--model",
            "sonnet",
            "the prompt",
        ]
    );
    let with_chrome = build_child_args("opus", true, "p2");
    assert_eq!(with_chrome.len(), 9);
    assert_eq!(with_chrome[5], "--chrome");
    assert_eq!(with_chrome[8], "p2");
}

#[test]
fn gateway_environment_uses_defaults_where_unset() {
    let env = gateway_env(Some("SECRET-REDACTED"), None, None);
    assert_eq!(env.len(), 3);
    assert_eq!(env[0].0, "ANTHROPIC_API_KEY");
    assert_eq!(env[0].1, "SECRET-REDACTED");
    assert_eq!(env[1].0, "ANTHROPIC_BASE_URL");
    assert_eq!(env[1].1, "https://api.z.ai/api/anthropic");
    assert_eq!(env[2].0, "API_TIMEOUT_MS");
    assert_eq!(env[2].1, "3000000");
    let env2 = gateway_env(None, Some("https://gw.test"), Some("60000"));
    assert_eq!(env2.len(), 2);
    assert_eq!(env2[0].1, "https://gw.test");
    assert_eq!(env2[1].1, "60000");
}

#[test]
fn an_undefused_guard_fails_the_job_and_resets_the_entity() {
    let mut store = Store::new(0);
    let mut queue = JobQueue::new();
    let lead_id = store
        .insert_lead(
            &NewLead {
                company_name: "Acme".to_string(),
                website: None,
                city: None,
                state: None,
                country: None,
            },
            0,
        )
        .unwrap();
    store.set_lead_research_status(lead_id, ResearchStatus::InProgress);
    let (id, _) = queue
        .submit(&mut store, &research_metadata(lead_id), "Acme", "p", "/w")
        .unwrap();
    let guard = JobGuard::new(
        &id,
        Some(EntityContext {
            entity_type: EntityType::Lead,
            entity_id: lead_id,
            rollback_status: ResearchStatus::Pending,
        }),
    );
    guard.cleanup(&mut queue, &mut store, 99);
    let row = store.get_job(&id).unwrap();
    assert_eq!(row.status, JobStatus::Error);
    assert_eq!(row.error_message.as_deref(), Some("Job aborted unexpectedly"));
    assert_eq!(
        store.get_lead(lead_id).unwrap().research_status,
        ResearchStatus::Pending
    );
    assert!(queue.get_active_jobs().is_empty());
}

#[test]
fn spawn_failure_releases_the_permit_and_resets_the_entity() {
    let mut store = Store::new(0);
    let mut queue = JobQueue::new();
    let lead_id = store
        .insert_lead(
            &NewLead {
                company_name: "Acme".to_string(),
                website: None,
                city: None,
                state: None,
                country: None,
            },
            0,
        )
        .unwrap();
    store.set_lead_research_status(lead_id, ResearchStatus::InProgress);
    let (id, _) = queue
        .submit(&mut store, &research_metadata(lead_id), "Acme", "p", "/w")
        .unwrap();
    queue.handle_queue_wait(&mut store, &id, &None, QueueWaitOutcome::PermitAcquired, 10);
    assert_eq!(queue.permits_in_use, 1);
    // The worker executable was not found: the supervisor rolls back.
    let ctx = EntityContext {
        entity_type: EntityType::Lead,
        entity_id: lead_id,
        rollback_status: ResearchStatus::Pending,
    };
    liidi::queue::reset_entity(&mut store, &ctx);
    queue.finish_job(
        &mut store,
        &id,
        JobStatus::Error,
        None,
        Some("Failed to spawn worker: No such file or directory"),
        true,
        20,
    );
    assert_eq!(queue.permits_in_use, 0);
    let row = store.get_job(&id).unwrap();
    assert_eq!(row.status, JobStatus::Error);
    assert!(row.error_message.as_deref().unwrap().contains("Failed to spawn"));
    assert_eq!(
        store.get_lead(lead_id).unwrap().research_status,
        ResearchStatus::Pending
    );
    assert!(queue.get_active_jobs().is_empty());
}
