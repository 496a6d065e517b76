use liidi::events::AppEvent;
use liidi::recovery::{detect_stale_jobs, detect_stuck_leads, detect_stuck_people,
    recover_on_startup, recover_stale_jobs, recover_stuck_entities};
use liidi::schema::{JobStatus, NewJob, NewLead, NewPerson, ResearchStatus};
use liidi::store::Store;

fn seed_job(store: &mut Store, id: &str, job_type: &str, entity_id: i64, created_at: i64,
    running: bool) {
    store
        .insert_job(
            &NewJob {
                id: id.to_string(),
                job_type: job_type.to_string(),
                entity_id,
                entity_label: "label".to_string(),
                prompt: "p".to_string(),
                model: None,
                working_dir: "/w".to_string(),
                output_path: None,
            },
            created_at,
        )
        .unwrap();
    if running {
        store
            .update_job_status(&id.to_string(), JobStatus::Running, None, None, created_at + 1)
            .unwrap();
    }
}

fn seed_person(store: &mut Store, upto: i64) -> i64 {
    let mut id = 0;
    for _ in 0..upto {
        id = store
            .insert_person(
                &NewPerson {
                    first_name: "Eva".to_string(),
                    last_name: "Lund".to_string(),
                    email: None,
                    title: None,
                    linkedin_url: None,
                    lead_id: Some(1),
                },
                0,
            )
            .unwrap();
    }
    id
}

#[test]
fn crash_recovery_resets_the_stranded_person() {
    // A running person research job from twenty minutes ago, with its
    // person still marked in progress.
    let mut store = Store::new(0);
    let person_id = seed_person(&mut store, 7);
    assert_eq!(person_id, 7);
    store.set_person_research_status(person_id, ResearchStatus::InProgress);
    let now: i64 = 100_000;
    seed_job(&mut store, "stale-1", "person_research", person_id, now - 20 * 60, true);

    let stale = detect_stale_jobs(&store, now);
    assert_eq!(stale.len(), 1);
    assert_eq!(stale[0].id, "stale-1");
    assert_eq!(stale[0].status, "running");

    let (recovered, events) = recover_on_startup(&mut store, now);
    assert_eq!(recovered, 1);
    let row = store.get_job(&"stale-1".to_string()).unwrap();
    assert_eq!(row.status, JobStatus::Error);
    assert_eq!(row.error_message.as_deref(), Some("Recovered stale job"));
    assert!(row.completed_at.is_some());
    assert_eq!(
        store.get_person_raw(person_id).unwrap().research_status,
        ResearchStatus::Pending
    );
    assert!(events
        .iter()
        .any(|e| matches!(e, AppEvent::PersonUpdated(p) if p.id == person_id)));
}

#[test]
fn young_and_terminal_jobs_are_left_alone() {
    let mut store = Store::new(0);
    let now: i64 = 100_000;
    seed_job(&mut store, "young", "scoring", 1, now - 60, true);
    seed_job(&mut store, "done", "scoring", 2, now - 20 * 60, true);
    store
        .update_job_status(&"done".to_string(), JobStatus::Completed, Some(0), None, now - 19 * 60)
        .unwrap();
    assert!(detect_stale_jobs(&store, now).is_empty());
    let (recovered, events) = recover_stale_jobs(&mut store, now);
    assert_eq!(recovered, 0);
    assert!(events.is_empty());
    assert_eq!(store.get_job(&"young".to_string()).unwrap().status, JobStatus::Running);
    assert_eq!(store.get_job(&"done".to_string()).unwrap().status, JobStatus::Completed);
}

#[test]
fn stuck_entities_are_found_and_reset() {
    let mut store = Store::new(0);
    let lead_id = store
        .insert_lead(
            &NewLead {
                company_name: "Acme".to_string(),
                website: None,
                city: None,
                state: None,
                country: None,
            },
            0,
        )
        .unwrap();
    store.set_lead_research_status(lead_id, ResearchStatus::InProgress);
    let person_id = seed_person(&mut store, 1);
    store.set_person_research_status(person_id, ResearchStatus::InProgress);
    // A lead with a live job is not stuck.
    let covered = store
        .insert_lead(
            &NewLead {
                company_name: "Covered".to_string(),
                website: None,
                city: None,
                state: None,
                country: None,
            },
            0,
        )
        .unwrap();
    store.set_lead_research_status(covered, ResearchStatus::InProgress);
    seed_job(&mut store, "live", "company_research", covered, 10, false);

    let stuck_leads = detect_stuck_leads(&store);
    assert_eq!(stuck_leads.len(), 1);
    assert_eq!(stuck_leads[0].id, lead_id);
    assert_eq!(stuck_leads[0].name, "Acme");
    assert_eq!(stuck_leads[0].entity_type, "lead");
    let stuck_people = detect_stuck_people(&store);
    assert_eq!(stuck_people.len(), 1);
    assert_eq!(stuck_people[0].name, "Eva Lund");

    let (recovered, events) = recover_stuck_entities(&mut store);
    assert_eq!(recovered, 2);
    assert_eq!(events.len(), 2);
    assert_eq!(
        store.get_lead(lead_id).unwrap().research_status,
        ResearchStatus::Pending
    );
    assert_eq!(
        store.get_person_raw(person_id).unwrap().research_status,
        ResearchStatus::Pending
    );
    assert_eq!(
        store.get_lead(covered).unwrap().research_status,
        ResearchStatus::InProgress
    );
}

#[test]
fn running_both_sweeps_twice_is_a_no_op() {
    let mut store = Store::new(0);
    let now: i64 = 500_000;
    let lead_id = store
        .insert_lead(
            &NewLead {
                company_name: "Acme".to_string(),
                website: None,
                city: None,
                state: None,
                country: None,
            },
            0,
        )
        .unwrap();
    store.set_lead_research_status(lead_id, ResearchStatus::InProgress);
    seed_job(&mut store, "s1", "company_research", lead_id, now - 3_600, true);
    seed_job(&mut store, "s2", "scoring", 9, now - 7_200, false);

    let (first, _) = recover_on_startup(&mut store, now);
    assert_eq!(first, 2);
    let jobs_after: Vec<(String, JobStatus)> =
        store.jobs.iter().map(|j| (j.id.clone(), j.status)).collect();
    let lead_after = store.get_lead(lead_id).unwrap().research_status;

    // With no intervening activity the second run finds nothing.
    let (second, events) = recover_on_startup(&mut store, now);
    assert_eq!(second, 0);
    assert!(events.is_empty());
    let jobs_again: Vec<(String, JobStatus)> =
        store.jobs.iter().map(|j| (j.id.clone(), j.status)).collect();
    assert_eq!(jobs_after, jobs_again);
    assert_eq!(store.get_lead(lead_id).unwrap().research_status, lead_after);
}

#[test]
fn detect_all_reports_every_category() {
    let mut store = Store::new(0);
    let now: i64 = 100_000;
    let lead_id = store
        .insert_lead(
            &NewLead {
                company_name: "Acme".to_string(),
                website: None,
                city: None,
                state: None,
                country: None,
            },
            0,
        )
        .unwrap();
    store.set_lead_research_status(lead_id, ResearchStatus::InProgress);
    seed_job(&mut store, "old", "scoring", 5, now - 2_000, false);
    let report = liidi::recovery::detect_all(&store, now);
    assert_eq!(report.stale_jobs.len(), 1);
    assert_eq!(report.stuck_leads.len(), 1);
    assert_eq!(report.stuck_people.len(), 0);
}

#[test]
fn stale_jobs_are_reported_oldest_first() {
    let mut store = Store::new(0);
    let now: i64 = 100_000;
    seed_job(&mut store, "newer", "scoring", 1, now - 1_000, false);
    seed_job(&mut store, "oldest", "scoring", 2, now - 9_000, true);
    seed_job(&mut store, "middle", "scoring", 3, now - 5_000, false);
    let stale = detect_stale_jobs(&store, now);
    let ids: Vec<&str> = stale.iter().map(|s| s.id.as_str()).collect();
    assert_eq!(ids, vec!["oldest", "middle", "newer"]);
    assert!(stale.windows(2).all(|w| w[0].created_at <= w[1].created_at));
}
