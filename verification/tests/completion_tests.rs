use liidi::completion::{CleanupAction, CompletionError, FileInput, extract_json_from_stdout,
    derive_tier, process_completion, verify_output_files};
use liidi::events::AppEvent;
use liidi::queue::{JobQueue, QueueWaitOutcome, RunOutcome, classify_exit};
use liidi::result_parser::{JobMetadata, JobType};
use liidi::schema::{JobStatus, NewLead, ResearchStatus};
use liidi::store::Store;
use liidi::stream::{StreamProcessor, StreamSource};
use liidi::prompts::company_research_paths;

fn lead_store_with_acme_as_42() -> (Store, i64) {
    let mut store = Store::new(0);
    let mut lead_id = 0;
    for _ in 0..42 {
        lead_id = store
            .insert_lead(
                &NewLead {
                    company_name: "Acme".to_string(),
                    website: None,
                    city: None,
                    state: None,
                    country: None,
                },
                0,
            )
            .unwrap();
    }
    (store, lead_id)
}

#[test]
fn happy_path_commits_everything_atomically() {
    let (mut store, lead_id) = lead_store_with_acme_as_42();
    assert_eq!(lead_id, 42);
    store.set_lead_research_status(lead_id, ResearchStatus::InProgress);
    let mut queue = JobQueue::new();

    let paths = company_research_paths("/data", lead_id, "Acme");
    assert_eq!(paths.dir, "/data/research/company_42_acme");
    assert_eq!(paths.profile_path, "/data/research/company_42_acme/company_profile.md");
    let meta = JobMetadata {
        job_type: JobType::CompanyResearch,
        entity_id: lead_id,
        primary_output_path: paths.profile_path.clone(),
        secondary_output_path: Some(paths.people_path.clone()),
        enrichment_output_path: Some(paths.enrichment_path.clone()),
    };

    let (id, _) = queue.submit(&mut store, &meta, "Acme", "prompt", "/w").unwrap();
    queue.handle_queue_wait(&mut store, &id, &None, QueueWaitOutcome::PermitAcquired, 10);

    // The child announces its session and finishes cleanly.
    let mut proc = StreamProcessor::new(&id, 0);
    proc.process_line(
        &mut store,
        "{\"type\":\"system\",\"subtype\":\"init\",\"session_id\":\"S\",\"model\":\"M\"}",
        StreamSource::Stdout,
        11,
    );
    proc.process_line(
        &mut store,
        "{\"type\":\"result\",\"is_error\":false,\"result\":\"ok\"}",
        StreamSource::Stdout,
        12,
    );
    let (status, code, success) = classify_exit(RunOutcome::Exited(0));
    let ctx = proc.finalize(&mut store, success, code, 13);
    queue.finish_job(&mut store, &id, status, code, None, true, 14);

    let outcome = process_completion(
        &mut store,
        &ctx,
        &meta,
        FileInput::Content("# Acme\n\nA fine company.".to_string()),
        FileInput::Content("[{\"firstName\":\"A\",\"lastName\":\"B\",\"title\":\"CEO\"}]".to_string()),
        FileInput::Content("{\"industry\":\"X\"}".to_string()),
        15,
    )
    .expect("completion succeeds");

    let row = store.get_job(&id).unwrap();
    assert_eq!(row.status, JobStatus::Completed);
    assert_eq!(row.exit_code, Some(0));
    assert_eq!(row.ai_session_id.as_deref(), Some("S"));
    assert_eq!(row.completion_state.as_deref(), Some("completed"));

    let lead = store.get_lead(lead_id).unwrap();
    assert_eq!(lead.research_status, ResearchStatus::Completed);
    assert_eq!(lead.industry.as_deref(), Some("X"));
    assert!(lead.company_profile.as_deref().unwrap().contains("fine company"));

    let people = store.get_people_for_lead(lead_id);
    assert_eq!(people.len(), 1);
    assert_eq!(people[0].first_name, "A");
    assert_eq!(people[0].last_name, "B");
    assert_eq!(people[0].title.as_deref(), Some("CEO"));

    match outcome.cleanup.as_ref().unwrap() {
        CleanupAction::RemoveDir(d) => assert_eq!(d, "/data/research/company_42_acme"),
        other => panic!("expected a directory removal, got {:?}", other),
    }
    assert!(outcome.events.iter().any(|e| matches!(e, AppEvent::LeadUpdated(p) if p.id == 42)));
    assert!(outcome
        .events
        .iter()
        .any(|e| matches!(e, AppEvent::PeopleBulkCreated(p) if p.lead_id == 42)));
    assert!(queue.get_active_jobs().is_empty());
}

#[test]
fn execution_timeout_leaves_no_score_row() {
    let mut store = Store::new(0);
    let mut queue = JobQueue::new();
    store.save_scoring_config("default", "[]", "[]", 80, 50, 30, 0).unwrap();
    let meta = JobMetadata {
        job_type: JobType::Scoring,
        entity_id: 9,
        primary_output_path: "/data/scoring/score_9_acme.json".to_string(),
        secondary_output_path: None,
        enrichment_output_path: None,
    };
    // A scoring child gets five minutes before the supervisor escalates.
    assert_eq!(meta.job_type.timeout_secs(), 300);
    let (id, _) = queue.submit(&mut store, &meta, "Acme (Scoring)", "p", "/w").unwrap();
    queue.handle_queue_wait(&mut store, &id, &None, QueueWaitOutcome::PermitAcquired, 10);

    let mut proc = StreamProcessor::new(&id, 0);
    proc.process_line(&mut store, "thinking...", StreamSource::Stdout, 11);
    let (status, code, success) = classify_exit(RunOutcome::ExecTimeout);
    assert_eq!(status, JobStatus::Timeout);
    let ctx = proc.finalize(&mut store, success, code, 12);
    queue.finish_job(&mut store, &id, status, code, None, true, 13);
    process_completion(
        &mut store,
        &ctx,
        &meta,
        FileInput::Missing,
        FileInput::Missing,
        FileInput::Missing,
        14,
    )
    .expect("a failed run still records its phase");

    let row = store.get_job(&id).unwrap();
    assert_eq!(row.status, JobStatus::Timeout);
    assert_eq!(row.completion_state.as_deref(), Some("failed"));
    assert!(row.total_stdout_bytes > 0, "stream stats were persisted");
    assert!(store.get_lead_score(9).is_none(), "no score row was inserted");
}

#[test]
fn partial_completion_survives_a_replayed_startup() {
    // The process died between the transaction commit and the file cleanup:
    // the row is terminal with its phase recorded and files still on disk.
    let mut store = Store::new(0);
    let mut queue = JobQueue::new();
    let meta = JobMetadata {
        job_type: JobType::Conversation,
        entity_id: 3,
        primary_output_path: "/data/conversations/conversation_3_ada.md".to_string(),
        secondary_output_path: None,
        enrichment_output_path: None,
    };
    let (id, _) = queue.submit(&mut store, &meta, "Ada", "p", "/w").unwrap();
    queue.handle_queue_wait(&mut store, &id, &None, QueueWaitOutcome::PermitAcquired, 10);
    queue.finish_job(&mut store, &id, JobStatus::Completed, Some(0), None, true, 20);
    store.update_job_completion_state(&id, Some("database_updated")).unwrap();

    let before = store.get_job(&id).unwrap().clone();
    let (recovered, _) = liidi::recovery::recover_on_startup(&mut store, 30_000);
    assert_eq!(recovered, 0, "the sweep does not touch terminal jobs");
    let after = store.get_job(&id).unwrap();
    assert_eq!(after.status, JobStatus::Completed);
    assert_eq!(after.completion_state.as_deref(), Some("database_updated"));
    assert_eq!(after.completed_at, before.completed_at);
}

#[test]
fn verification_rejects_exactly_the_broken_inputs() {
    let meta = JobMetadata {
        job_type: JobType::Scoring,
        entity_id: 1,
        primary_output_path: "/out/score.json".to_string(),
        secondary_output_path: None,
        enrichment_output_path: None,
    };
    match verify_output_files(&meta, FileInput::Missing, FileInput::Missing, FileInput::Missing) {
        Err(CompletionError::FileNotFound(p)) => assert_eq!(p, "/out/score.json"),
        other => panic!("expected FileNotFound, got {:?}", other),
    }
    match verify_output_files(
        &meta,
        FileInput::Unreadable("permission denied".to_string()),
        FileInput::Missing,
        FileInput::Missing,
    ) {
        Err(CompletionError::FileReadError(p, m)) => {
            assert_eq!(p, "/out/score.json");
            assert_eq!(m, "permission denied");
        },
        other => panic!("expected FileReadError, got {:?}", other),
    }
    match verify_output_files(
        &meta,
        FileInput::Content("   \n\t ".to_string()),
        FileInput::Missing,
        FileInput::Missing,
    ) {
        Err(CompletionError::ValidationError(m)) => assert!(m.contains("empty")),
        other => panic!("expected ValidationError, got {:?}", other),
    }
    let ok = verify_output_files(
        &meta,
        FileInput::Content("{\"passesRequirements\":true}".to_string()),
        FileInput::Missing,
        FileInput::Missing,
    )
    .unwrap();
    assert_eq!(ok.primary_content, "{\"passesRequirements\":true}");
    assert!(ok.secondary_content.is_none());
}

#[test]
fn scoring_output_must_name_passes_requirements() {
    let mut store = Store::new(0);
    store.save_scoring_config("default", "[]", "[]", 80, 50, 30, 0).unwrap();
    let meta = JobMetadata {
        job_type: JobType::Scoring,
        entity_id: 5,
        primary_output_path: "/out/score.json".to_string(),
        secondary_output_path: None,
        enrichment_output_path: None,
    };
    let ctx_success = |store: &mut Store| {
        let mut queue = JobQueue::new();
        let (id, _) = queue.submit(store, &meta, "Acme", "p", "/w").unwrap();
        queue.handle_queue_wait(store, &id, &None, QueueWaitOutcome::PermitAcquired, 1);
        let mut proc = StreamProcessor::new(&id, 0);
        let ctx = proc.finalize(store, true, Some(0), 2);
        queue.finish_job(store, &id, JobStatus::Completed, Some(0), None, true, 3);
        (id, ctx)
    };

    // Valid JSON without the required field is a validation error.
    let (id1, ctx1) = ctx_success(&mut store);
    let r = process_completion(
        &mut store,
        &ctx1,
        &meta,
        FileInput::Content("{\"totalScore\":50}".to_string()),
        FileInput::Missing,
        FileInput::Missing,
        4,
    );
    assert!(matches!(r, Err(CompletionError::ValidationError(_))));
    assert!(store.get_lead_score(5).is_none());
    let phase = store.get_job(&id1).unwrap().completion_state.clone();
    assert_eq!(phase.as_deref(), Some("files_verified"));

    // Broken JSON is a parse error.
    let (_, ctx2) = ctx_success(&mut store);
    let r = process_completion(
        &mut store,
        &ctx2,
        &meta,
        FileInput::Content("not json at all".to_string()),
        FileInput::Missing,
        FileInput::Missing,
        5,
    );
    assert!(matches!(r, Err(CompletionError::ParseError(_))));

    // A good output inserts one score row with the derived tier.
    let (_, ctx3) = ctx_success(&mut store);
    process_completion(
        &mut store,
        &ctx3,
        &meta,
        FileInput::Content(
            "{\"passesRequirements\":true,\"totalScore\":85,\"scoringNotes\":\"solid\"}"
                .to_string(),
        ),
        FileInput::Missing,
        FileInput::Missing,
        6,
    )
    .unwrap();
    let score = store.get_lead_score(5).unwrap();
    assert_eq!(score.total_score, 85);
    assert_eq!(score.tier, "hot");
    assert_eq!(score.passes_requirements, true);
    assert_eq!(score.requirement_results, "[]");
    assert_eq!(score.scoring_notes.as_deref(), Some("solid"));
}

#[test]
fn tiers_derive_from_the_configured_thresholds() {
    assert_eq!(derive_tier(false, 95, 80, 50, 30), "disqualified");
    assert_eq!(derive_tier(true, 85, 80, 50, 30), "hot");
    assert_eq!(derive_tier(true, 60, 80, 50, 30), "warm");
    assert_eq!(derive_tier(true, 35, 80, 50, 30), "nurture");
    assert_eq!(derive_tier(true, 10, 80, 50, 30), "disqualified");
}

#[test]
fn json_is_salvaged_from_noisy_output() {
    let direct = "{\"marketingNarrative\":\"We sell\"}";
    assert_eq!(
        extract_json_from_stdout(direct).unwrap().marketing_narrative.as_deref(),
        Some("We sell")
    );
    let noisy = "Working on it...\nHere is the result: {\"marketingNarrative\":\"Embedded\"} done.";
    assert_eq!(
        extract_json_from_stdout(noisy).unwrap().marketing_narrative.as_deref(),
        Some("Embedded")
    );
    let fenced = "Explanation first.\n```json\n{\"marketingNarrative\":\"Fenced\"}\n```\nbye";
    assert_eq!(
        extract_json_from_stdout(fenced).unwrap().marketing_narrative.as_deref(),
        Some("Fenced")
    );
    assert!(extract_json_from_stdout("no json anywhere").is_none());
    assert!(extract_json_from_stdout("unbalanced { brace").is_none());
}

#[test]
fn a_failed_run_marks_the_entity_failed() {
    let (mut store, lead_id) = lead_store_with_acme_as_42();
    store.set_lead_research_status(lead_id, ResearchStatus::InProgress);
    let meta = JobMetadata {
        job_type: JobType::CompanyResearch,
        entity_id: lead_id,
        primary_output_path: "/p.md".to_string(),
        secondary_output_path: None,
        enrichment_output_path: None,
    };
    let mut queue = JobQueue::new();
    let (id, _) = queue.submit(&mut store, &meta, "Acme", "p", "/w").unwrap();
    queue.handle_queue_wait(&mut store, &id, &None, QueueWaitOutcome::PermitAcquired, 1);
    let mut proc = StreamProcessor::new(&id, 0);
    let ctx = proc.finalize(&mut store, false, Some(2), 2);
    queue.finish_job(&mut store, &id, JobStatus::Error, Some(2), Some("Job error with code 2"), true, 3);
    let outcome = process_completion(
        &mut store,
        &ctx,
        &meta,
        FileInput::Missing,
        FileInput::Missing,
        FileInput::Missing,
        4,
    )
    .unwrap();
    assert!(outcome.events.is_empty());
    assert!(outcome.cleanup.is_none());
    assert_eq!(
        store.get_lead(lead_id).unwrap().research_status,
        ResearchStatus::Failed
    );
    assert_eq!(
        store.get_job(&id).unwrap().completion_state.as_deref(),
        Some("failed")
    );
}
