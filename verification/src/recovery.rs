use vstd::prelude::*;
use crate::events::{AppEvent, LeadUpdatedPayload, PersonUpdatedPayload};
use crate::schema::{Job, JobStatus, Lead, Person, ResearchStatus};
use crate::store::{Store, spec_active_match, spec_has_person, spec_job_active,
    spec_person_index, str_of};
use crate::STALE_JOB_THRESHOLD_SECS;

verus! {

broadcast use vstd::string::group_string_axioms;

/// Everything the two sweeps found, for callers that want to inspect
/// before they recover.
#[derive(Debug)]
pub struct StaleJobsResult {
    pub stale_jobs: Vec<StaleJob>,
    pub stuck_leads: Vec<StuckEntity>,
    pub stuck_people: Vec<StuckEntity>,
}

/// A queued or running job old enough that its supervisor must be dead.
#[derive(Debug)]
pub struct StaleJob {
    pub id: String,
    pub job_type: String,
    pub entity_id: i64,
    pub entity_label: String,
    pub status: String,
    pub started_at: Option<i64>,
    pub created_at: i64,
}

/// An entity left `in_progress` with no live job to finish it.
#[derive(Debug)]
pub struct StuckEntity {
    pub id: i64,
    pub name: String,
    pub entity_type: String,
    pub status: String,
}

/// A job the stale sweep acts on: still live, but created before the
/// threshold.
pub open spec fn spec_stale(j: Job, now: i64) -> bool {
    spec_job_active(j) && j.created_at < now - STALE_JOB_THRESHOLD_SECS
}

/// Some live job row names this entity and kind.
pub open spec fn spec_exists_active(jobs: Seq<Job>, entity_id: i64, kind: Seq<char>) -> bool {
    exists|k: int| 0 <= k < jobs.len() && spec_active_match(jobs[k], entity_id, kind)
}

/// A lead the stuck sweep acts on: `in_progress` with no live research job.
pub open spec fn spec_stuck_lead(jobs: Seq<Job>, l: Lead) -> bool {
    l.research_status == ResearchStatus::InProgress && !spec_exists_active(
        jobs,
        l.id,
        "company_research"@,
    )
}

/// A person the stuck sweep acts on.
pub open spec fn spec_stuck_person(jobs: Seq<Job>, p: Person) -> bool {
    p.research_status == ResearchStatus::InProgress && !spec_exists_active(
        jobs,
        p.id,
        "person_research"@,
    )
}

/// A stale-job report reduced to plain values, for comparing reports that
/// hold distinct but equal strings.
pub open spec fn spec_stale_view(s: StaleJob) -> (
    Seq<char>,
    Seq<char>,
    i64,
    Seq<char>,
    Seq<char>,
    Option<i64>,
    i64,
) {
    (s.id@, s.job_type@, s.entity_id, s.entity_label@, s.status@, s.started_at, s.created_at)
}

/// The report a stale job row becomes.
pub open spec fn spec_stale_job_view(j: Job) -> (
    Seq<char>,
    Seq<char>,
    i64,
    Seq<char>,
    Seq<char>,
    Option<i64>,
    i64,
) {
    (
        j.id@,
        j.job_type@,
        j.entity_id,
        j.entity_label@,
        j.status.spec_str(),
        j.started_at,
        j.created_at,
    )
}

/// Reports ordered by creation time, oldest first.
pub open spec fn spec_sorted_by_created(s: Seq<StaleJob>) -> bool {
    forall|i: int, j: int|
        0 <= i < j < s.len() ==> (#[trigger] s[i]).created_at <= (#[trigger] s[j]).created_at
}

/// Orders the reports by creation time, oldest first, keeping exactly the
/// same reports.
fn sort_stale_by_created(v: Vec<StaleJob>) -> (r: Vec<StaleJob>)
    ensures
        r@.len() == v@.len(),
        spec_sorted_by_created(r@),
        r@.map_values(|s: StaleJob| spec_stale_view(s)).to_multiset() == v@.map_values(
            |s: StaleJob| spec_stale_view(s),
        ).to_multiset(),
{
    broadcast use vstd::seq_lib::group_to_multiset_ensures;
    broadcast use vstd::multiset::group_multiset_axioms;
    broadcast use vstd::multiset::group_multiset_properties;

    let mut rest = v;
    let mut out: Vec<StaleJob> = Vec::new();
    proof {
        assert(out@.map_values(|s: StaleJob| spec_stale_view(s)).to_multiset().add(
            rest@.map_values(|s: StaleJob| spec_stale_view(s)).to_multiset(),
        ) =~= v@.map_values(|s: StaleJob| spec_stale_view(s)).to_multiset());
    }
    while rest.len() > 0
        invariant
            out@.len() + rest@.len() == v@.len(),
            spec_sorted_by_created(out@),
            forall|p: int, q: int|
                0 <= p < out@.len() && 0 <= q < rest@.len() ==> (#[trigger] out@[p]).created_at
                    <= (#[trigger] rest@[q]).created_at,
            out@.map_values(|s: StaleJob| spec_stale_view(s)).to_multiset().add(
                rest@.map_values(|s: StaleJob| spec_stale_view(s)).to_multiset(),
            ) == v@.map_values(|s: StaleJob| spec_stale_view(s)).to_multiset(),
        decreases rest@.len(),
    {
        let mut m: usize = 0;
        let mut k: usize = 1;
        while k < rest.len()
            invariant
                k <= rest@.len(),
                m < rest@.len(),
                forall|t: int|
                    0 <= t < k ==> rest@[m as int].created_at <= (#[trigger] rest@[t]).created_at,
            decreases rest@.len() - k,
        {
            if rest[k].created_at < rest[m].created_at {
                m = k;
            }
            k += 1;
        }
        let ghost pre_rest = rest@;
        let ghost pre_out = out@;
        let x = rest.remove(m);
        out.push(x);
        proof {
            let view = |s: StaleJob| spec_stale_view(s);
            assert(rest@.map_values(view) =~= pre_rest.map_values(view).remove(m as int));
            assert(out@.map_values(view) =~= pre_out.map_values(view).push(view(x)));
            assert(pre_rest.map_values(view)[m as int] == view(x));
            assert(pre_rest.map_values(view).contains(view(x)));
            pre_rest.map_values(view).to_multiset_ensures();
            pre_out.map_values(view).to_multiset_ensures();
            assert((pre_rest.map_values(view).remove(m as int)).to_multiset()
                =~= pre_rest.map_values(view).to_multiset().remove(
                pre_rest.map_values(view)[m as int],
            ));
            assert((pre_out.map_values(view).push(view(x))).to_multiset()
                =~= pre_out.map_values(view).to_multiset().insert(view(x)));
            assert(pre_rest.map_values(view).to_multiset().count(view(x)) >= 1);
            assert(rest@.map_values(view).to_multiset() =~= pre_rest.map_values(
                view,
            ).to_multiset().remove(view(x)));
            assert(out@.map_values(view).to_multiset() =~= pre_out.map_values(
                view,
            ).to_multiset().insert(view(x)));
            assert(out@.map_values(view).to_multiset().add(rest@.map_values(view).to_multiset())
                =~= v@.map_values(view).to_multiset());
            assert forall|p: int, q: int|
                0 <= p < out@.len() && 0 <= q < rest@.len() implies (
                #[trigger] out@[p]).created_at <= (#[trigger] rest@[q]).created_at by {
                if q < m {
                    assert(rest@[q] == pre_rest[q]);
                } else {
                    assert(rest@[q] == pre_rest[q + 1]);
                }
            }
        }
    }
    out
}

/// Finds the jobs still marked live whose age says their supervisor died,
/// reported oldest first.
pub fn detect_stale_jobs(store: &Store, now: i64) -> (r: Vec<StaleJob>)
    requires
        store.wf(),
        now >= i64::MIN + STALE_JOB_THRESHOLD_SECS,
    ensures
        ({
            let stale = store.jobs@.filter(|j: Job| spec_stale(j, now));
            &&& r@.len() == stale.len()
            &&& spec_sorted_by_created(r@)
            &&& r@.map_values(|s: StaleJob| spec_stale_view(s)).to_multiset()
                == stale.map_values(|j: Job| spec_stale_job_view(j)).to_multiset()
        }),
{
    let threshold: i64 = now - STALE_JOB_THRESHOLD_SECS;
    let mut out: Vec<StaleJob> = Vec::new();
    let mut i: usize = 0;
    while i < store.jobs.len()
        invariant
            i <= store.jobs@.len(),
            threshold == now - STALE_JOB_THRESHOLD_SECS,
            ({
                let stale = store.jobs@.subrange(0, i as int).filter(
                    |j: Job| spec_stale(j, now),
                );
                &&& out@.len() == stale.len()
                &&& forall|k: int|
                    0 <= k < stale.len() ==> {
                        let s = #[trigger] out@[k];
                        &&& s.id@ == stale[k].id@
                        &&& s.job_type@ == stale[k].job_type@
                        &&& s.entity_id == stale[k].entity_id
                        &&& s.entity_label@ == stale[k].entity_label@
                        &&& s.status@ == stale[k].status.spec_str()
                        &&& s.started_at == stale[k].started_at
                        &&& s.created_at == stale[k].created_at
                    }
            }),
        decreases store.jobs@.len() - i,
    {
        proof {
            crate::store::lemma_filter_step(store.jobs@, |j: Job| spec_stale(j, now),
                i as int);
        }
        let j = &store.jobs[i];
        let active = matches!(j.status, JobStatus::Queued | JobStatus::Running);
        if active && j.created_at < threshold {
            out.push(StaleJob {
                id: j.id.clone(),
                job_type: j.job_type.clone(),
                entity_id: j.entity_id,
                entity_label: j.entity_label.clone(),
                status: str_of(j.status.as_str()),
                started_at: j.started_at,
                created_at: j.created_at,
            });
        }
        i += 1;
    }
    proof {
        assert(store.jobs@.subrange(0, store.jobs@.len() as int) == store.jobs@);
        let stale = store.jobs@.filter(|j: Job| spec_stale(j, now));
        assert(out@.map_values(|s: StaleJob| spec_stale_view(s)) =~= stale.map_values(
            |j: Job| spec_stale_job_view(j),
        ));
    }
    sort_stale_by_created(out)
}

/// Finds the leads left `in_progress` with no live research job.
pub fn detect_stuck_leads(store: &Store) -> (r: Vec<StuckEntity>)
    requires
        store.wf(),
    ensures
        ({
            let stuck = store.leads@.filter(|l: Lead| spec_stuck_lead(store.jobs@, l));
            &&& r@.len() == stuck.len()
            &&& forall|k: int|
                0 <= k < stuck.len() ==> {
                    let s = #[trigger] r@[k];
                    &&& s.id == stuck[k].id
                    &&& s.name@ == stuck[k].company_name@
                    &&& s.entity_type@ == "lead"@
                    &&& s.status@ == "in_progress"@
                }
        }),
{
    let mut out: Vec<StuckEntity> = Vec::new();
    let mut i: usize = 0;
    while i < store.leads.len()
        invariant
            store.wf(),
            i <= store.leads@.len(),
            ({
                let stuck = store.leads@.subrange(0, i as int).filter(
                    |l: Lead| spec_stuck_lead(store.jobs@, l),
                );
                &&& out@.len() == stuck.len()
                &&& forall|k: int|
                    0 <= k < stuck.len() ==> {
                        let s = #[trigger] out@[k];
                        &&& s.id == stuck[k].id
                        &&& s.name@ == stuck[k].company_name@
                        &&& s.entity_type@ == "lead"@
                        &&& s.status@ == "in_progress"@
                    }
            }),
        decreases store.leads@.len() - i,
    {
        proof {
            crate::store::lemma_filter_step(store.leads@,
                |l: Lead| spec_stuck_lead(store.jobs@, l), i as int);
        }
        let l = &store.leads[i];
        let in_progress = matches!(l.research_status, ResearchStatus::InProgress);
        if in_progress && store.get_active_job_for_entity(l.id, "company_research").is_none() {
            out.push(StuckEntity {
                id: l.id,
                name: l.company_name.clone(),
                entity_type: str_of("lead"),
                status: str_of("in_progress"),
            });
        }
        i += 1;
    }
    proof {
        assert(store.leads@.subrange(0, store.leads@.len() as int) == store.leads@);
    }
    out
}

/// Finds the people left `in_progress` with no live research job.
pub fn detect_stuck_people(store: &Store) -> (r: Vec<StuckEntity>)
    requires
        store.wf(),
    ensures
        ({
            let stuck = store.people@.filter(|p: Person| spec_stuck_person(store.jobs@, p));
            &&& r@.len() == stuck.len()
            &&& forall|k: int|
                0 <= k < stuck.len() ==> {
                    let s = #[trigger] r@[k];
                    &&& s.id == stuck[k].id
                    &&& s.name@ == stuck[k].first_name@ + " "@ + stuck[k].last_name@
                    &&& s.entity_type@ == "person"@
                    &&& s.status@ == "in_progress"@
                }
        }),
{
    let mut out: Vec<StuckEntity> = Vec::new();
    let mut i: usize = 0;
    while i < store.people.len()
        invariant
            store.wf(),
            i <= store.people@.len(),
            ({
                let stuck = store.people@.subrange(0, i as int).filter(
                    |p: Person| spec_stuck_person(store.jobs@, p),
                );
                &&& out@.len() == stuck.len()
                &&& forall|k: int|
                    0 <= k < stuck.len() ==> {
                        let s = #[trigger] out@[k];
                        &&& s.id == stuck[k].id
                        &&& s.name@ == stuck[k].first_name@ + " "@ + stuck[k].last_name@
                        &&& s.entity_type@ == "person"@
                        &&& s.status@ == "in_progress"@
                    }
            }),
        decreases store.people@.len() - i,
    {
        proof {
            crate::store::lemma_filter_step(store.people@,
                |p: Person| spec_stuck_person(store.jobs@, p), i as int);
        }
        let p = &store.people[i];
        let in_progress = matches!(p.research_status, ResearchStatus::InProgress);
        if in_progress && store.get_active_job_for_entity(p.id, "person_research").is_none() {
            let mut name = p.first_name.clone();
            name.append(" ");
            name.append(p.last_name.as_str());
            out.push(StuckEntity {
                id: p.id,
                name,
                entity_type: str_of("person"),
                status: str_of("in_progress"),
            });
        }
        i += 1;
    }
    proof {
        assert(store.people@.subrange(0, store.people@.len() as int) == store.people@);
    }
    out
}

/// Runs all three detections without changing anything: what the caller
/// inspects before deciding to recover.
pub fn detect_all(store: &Store, now: i64) -> (r: StaleJobsResult)
    requires
        store.wf(),
        now >= i64::MIN + STALE_JOB_THRESHOLD_SECS,
    ensures
        r.stale_jobs@.len() == store.jobs@.filter(|j: Job| spec_stale(j, now)).len(),
        r.stuck_leads@.len() == store.leads@.filter(
            |l: Lead| spec_stuck_lead(store.jobs@, l),
        ).len(),
        r.stuck_people@.len() == store.people@.filter(
            |p: Person| spec_stuck_person(store.jobs@, p),
        ).len(),
{
    StaleJobsResult {
        stale_jobs: detect_stale_jobs(store, now),
        stuck_leads: detect_stuck_leads(store),
        stuck_people: detect_stuck_people(store),
    }
}

/// A lead the stale sweep must put back to `pending`: it is `in_progress`
/// and some stale company research job names it.
pub open spec fn spec_lead_needs_reset(jobs: Seq<Job>, l: Lead, now: i64) -> bool {
    l.research_status == ResearchStatus::InProgress && exists|k: int|
        0 <= k < jobs.len() && spec_stale(#[trigger] jobs[k], now) && jobs[k].job_type@
            == "company_research"@ && jobs[k].entity_id == l.id
}

/// A person the stale sweep must put back to `pending`.
pub open spec fn spec_person_needs_reset(jobs: Seq<Job>, p: Person, now: i64) -> bool {
    p.research_status == ResearchStatus::InProgress && exists|k: int|
        0 <= k < jobs.len() && spec_stale(#[trigger] jobs[k], now) && jobs[k].job_type@
            == "person_research"@ && jobs[k].entity_id == p.id
}

/// The entity events one pass of the stale sweep announces, in job order:
/// a lead update for every stale company research job, and a person update
/// for every stale person research job whose person exists.
pub open spec fn spec_stale_events(jobs: Seq<Job>, people: Seq<Person>, now: i64)
    -> Seq<AppEvent>
    decreases jobs.len(),
{
    if jobs.len() == 0 {
        Seq::empty()
    } else {
        let pre = spec_stale_events(jobs.drop_last(), people, now);
        let j = jobs.last();
        if spec_stale(j, now) {
            if j.job_type@ == "company_research"@ {
                pre.push(AppEvent::LeadUpdated(LeadUpdatedPayload { id: j.entity_id }))
            } else if j.job_type@ == "person_research"@ {
                if spec_has_person(people, j.entity_id) {
                    pre.push(AppEvent::PersonUpdated(PersonUpdatedPayload {
                        id: j.entity_id,
                        lead_id: people[spec_person_index(people, j.entity_id)].lead_id,
                    }))
                } else {
                    pre
                }
            } else {
                pre
            }
        } else {
            pre
        }
    }
}

/// Whether some job row is stale, of the given kind, and names the entity.
fn has_stale_job_for(jobs: &Vec<Job>, entity_id: i64, kind: &str, now: i64) -> (r: bool)
    requires
        now >= i64::MIN + STALE_JOB_THRESHOLD_SECS,
    ensures
        r == exists|k: int|
            0 <= k < jobs@.len() && spec_stale(#[trigger] jobs@[k], now) && jobs@[k].job_type@
                == kind@ && jobs@[k].entity_id == entity_id,
{
    let threshold: i64 = now - STALE_JOB_THRESHOLD_SECS;
    let mut k: usize = 0;
    while k < jobs.len()
        invariant
            k <= jobs@.len(),
            threshold == now - STALE_JOB_THRESHOLD_SECS,
            forall|m: int|
                0 <= m < k ==> !(spec_stale(#[trigger] jobs@[m], now) && jobs@[m].job_type@
                    == kind@ && jobs@[m].entity_id == entity_id),
        decreases jobs@.len() - k,
    {
        let j = &jobs[k];
        let active = matches!(j.status, JobStatus::Queued | JobStatus::Running);
        if active && j.created_at < threshold && j.entity_id == entity_id
            && crate::textutil::str_eq(j.job_type.as_str(), kind) {
            return true;
        }
        k += 1;
    }
    false
}

proof fn lemma_stale_events_empty(jobs: Seq<Job>, people: Seq<Person>, now: i64)
    requires
        forall|k: int| 0 <= k < jobs.len() ==> !spec_stale(#[trigger] jobs[k], now),
    ensures
        spec_stale_events(jobs, people, now).len() == 0,
    decreases jobs.len(),
{
    if jobs.len() > 0 {
        assert(forall|k: int|
            0 <= k < jobs.drop_last().len() ==> #[trigger] jobs.drop_last()[k] == jobs[k]);
        lemma_stale_events_empty(jobs.drop_last(), people, now);
    }
}

/// The stale-job sweep: every live job older than the threshold is ended
/// as an error with the standing message, and each research entity it
/// stranded `in_progress` is put back to `pending`. Nothing else moves,
/// and a store with nothing stale comes back untouched, which is what
/// makes an immediate second sweep a no-op.
/// What one pass of the stale sweep does to the store: every live job
/// older than the threshold becomes an error with the standing message,
/// each research entity such a job stranded `in_progress` goes back to
/// `pending`, and nothing else moves.
pub open spec fn spec_stale_sweep(pre: Store, post: Store, now: i64) -> bool {
    &&& post.logs == pre.logs
    &&& post.prompts == pre.prompts
    &&& post.scoring_configs == pre.scoring_configs
    &&& post.lead_scores == pre.lead_scores
    &&& post.company_profile == pre.company_profile
    &&& post.settings == pre.settings
    &&& post.next_log_id == pre.next_log_id
    &&& post.next_lead_id == pre.next_lead_id
    &&& post.next_person_id == pre.next_person_id
    &&& post.next_prompt_id == pre.next_prompt_id
    &&& post.next_config_id == pre.next_config_id
    &&& post.next_score_id == pre.next_score_id
    &&& post.jobs@.len() == pre.jobs@.len()
    &&& forall|k: int|
        0 <= k < pre.jobs@.len() ==> if spec_stale(#[trigger] pre.jobs@[k], now) {
            Store::spec_status_change(
                pre.jobs@[k],
                post.jobs@[k],
                JobStatus::Error,
                None,
                Some("Recovered stale job"@),
                now,
            )
        } else {
            post.jobs@[k] == pre.jobs@[k]
        }
    &&& post.leads@.len() == pre.leads@.len()
    &&& forall|li: int|
        0 <= li < pre.leads@.len() ==> if spec_lead_needs_reset(
            pre.jobs@,
            #[trigger] pre.leads@[li],
            now,
        ) {
            post.leads@[li] == (Lead {
                research_status: ResearchStatus::Pending,
                ..pre.leads@[li]
            })
        } else {
            post.leads@[li] == pre.leads@[li]
        }
    &&& post.people@.len() == pre.people@.len()
    &&& forall|pi: int|
        0 <= pi < pre.people@.len() ==> if spec_person_needs_reset(
            pre.jobs@,
            #[trigger] pre.people@[pi],
            now,
        ) {
            post.people@[pi] == (Person {
                research_status: ResearchStatus::Pending,
                ..pre.people@[pi]
            })
        } else {
            post.people@[pi] == pre.people@[pi]
        }
}

pub fn recover_stale_jobs(store: &mut Store, now: i64) -> (r: (usize, Vec<AppEvent>))
    requires
        old(store).wf(),
        i64::MIN + STALE_JOB_THRESHOLD_SECS <= now <= 4_000_000_000_000,
    ensures
        final(store).wf(),
        spec_stale_sweep(*old(store), *final(store), now),
        r.0 == old(store).jobs@.filter(|j: Job| spec_stale(j, now)).len(),
        r.1@ == spec_stale_events(old(store).jobs@, old(store).people@, now),
        (forall|k: int|
            0 <= k < old(store).jobs@.len() ==> !spec_stale(
                #[trigger] old(store).jobs@[k],
                now,
            )) ==> final(store).jobs@ == old(store).jobs@ && final(store).leads@
            == old(store).leads@ && final(store).people@ == old(store).people@ && r.0 == 0
            && r.1@.len() == 0,
{
    let threshold: i64 = now - STALE_JOB_THRESHOLD_SECS;
    // First the stranded leads are put back to pending.
    let nl = store.leads.len();
    let mut li: usize = 0;
    while li < nl
        invariant
            i64::MIN + STALE_JOB_THRESHOLD_SECS <= now <= 4_000_000_000_000,
            li <= nl,
            nl == old(store).leads@.len(),
            threshold == now - STALE_JOB_THRESHOLD_SECS,
            *store == (Store { leads: store.leads, ..*old(store) }),
            store.leads@.len() == nl,
            forall|k: int|
                0 <= k < li ==> if spec_lead_needs_reset(old(store).jobs@,
                    #[trigger] old(store).leads@[k], now) {
                    store.leads@[k] == (Lead {
                        research_status: ResearchStatus::Pending,
                        ..old(store).leads@[k]
                    })
                } else {
                    store.leads@[k] == old(store).leads@[k]
                },
            forall|k: int| li <= k < nl ==> #[trigger] store.leads@[k]
                == old(store).leads@[k],
            store.wf(),
        decreases nl - li,
    {
        let in_progress = matches!(store.leads[li].research_status,
            ResearchStatus::InProgress);
        let lead_id = store.leads[li].id;
        if in_progress && has_stale_job_for(&store.jobs, lead_id, "company_research", now) {
            store.leads[li].research_status = ResearchStatus::Pending;
        }
        li += 1;
    }
    // Then the stranded people.
    let ghost mid_a = *store;
    let np = store.people.len();
    let mut pi: usize = 0;
    while pi < np
        invariant
            i64::MIN + STALE_JOB_THRESHOLD_SECS <= now <= 4_000_000_000_000,
            pi <= np,
            np == old(store).people@.len(),
            threshold == now - STALE_JOB_THRESHOLD_SECS,
            *store == (Store { people: store.people, ..mid_a }),
            mid_a.jobs == old(store).jobs,
            mid_a.people == old(store).people,
            store.people@.len() == np,
            forall|k: int|
                0 <= k < pi ==> if spec_person_needs_reset(old(store).jobs@,
                    #[trigger] old(store).people@[k], now) {
                    store.people@[k] == (Person {
                        research_status: ResearchStatus::Pending,
                        ..old(store).people@[k]
                    })
                } else {
                    store.people@[k] == old(store).people@[k]
                },
            forall|k: int| pi <= k < np ==> #[trigger] store.people@[k]
                == old(store).people@[k],
            store.wf(),
        decreases np - pi,
    {
        let in_progress = matches!(store.people[pi].research_status,
            ResearchStatus::InProgress);
        let person_id = store.people[pi].id;
        if in_progress && has_stale_job_for(&store.jobs, person_id, "person_research", now) {
            store.people[pi].research_status = ResearchStatus::Pending;
        }
        pi += 1;
    }
    // Last the stale rows themselves, with their events in job order.
    let ghost mid_b = *store;
    let mut events: Vec<AppEvent> = Vec::new();
    let mut recovered: usize = 0;
    let n = store.jobs.len();
    let mut i: usize = 0;
    while i < n
        invariant
            i64::MIN + STALE_JOB_THRESHOLD_SECS <= now <= 4_000_000_000_000,
            i <= n,
            n == old(store).jobs@.len(),
            threshold == now - STALE_JOB_THRESHOLD_SECS,
            *store == (Store { jobs: store.jobs, ..mid_b }),
            mid_b.wf(),
            store.wf(),
            mid_b.jobs == old(store).jobs,
            mid_b.people@.len() == old(store).people@.len(),
            forall|k: int|
                0 <= k < mid_b.people@.len() ==> (#[trigger] mid_b.people@[k]).id
                    == old(store).people@[k].id && mid_b.people@[k].lead_id
                    == old(store).people@[k].lead_id,
            store.jobs@.len() == n,
            forall|k: int|
                0 <= k < i ==> if spec_stale(#[trigger] old(store).jobs@[k], now) {
                    Store::spec_status_change(
                        old(store).jobs@[k],
                        store.jobs@[k],
                        JobStatus::Error,
                        None,
                        Some("Recovered stale job"@),
                        now,
                    )
                } else {
                    store.jobs@[k] == old(store).jobs@[k]
                },
            forall|k: int| i <= k < n ==> #[trigger] store.jobs@[k] == old(store).jobs@[k],
            recovered == old(store).jobs@.subrange(0, i as int).filter(
                |j: Job| spec_stale(j, now),
            ).len(),
            recovered <= i,
            events@ == spec_stale_events(old(store).jobs@.subrange(0, i as int),
                old(store).people@, now),
        decreases n - i,
    {
        proof {
            crate::store::lemma_filter_step(old(store).jobs@, |j: Job| spec_stale(j, now),
                i as int);
            old(store).jobs@.subrange(0, i + 1 as int).lemma_filter_len(
                |j: Job| spec_stale(j, now));
            assert(old(store).jobs@.subrange(0, i + 1 as int).drop_last()
                =~= old(store).jobs@.subrange(0, i as int));
            assert(old(store).jobs@.subrange(0, i + 1 as int).last()
                == old(store).jobs@[i as int]);
        }
        let active = matches!(store.jobs[i].status, JobStatus::Queued | JobStatus::Running);
        let is_stale = active && store.jobs[i].created_at < threshold;
        if is_stale {
            let entity_id = store.jobs[i].entity_id;
            let is_company = crate::textutil::str_eq(store.jobs[i].job_type.as_str(),
                "company_research");
            let is_person = crate::textutil::str_eq(store.jobs[i].job_type.as_str(),
                "person_research");
            let base: i64 = match store.jobs[i].started_at {
                Some(s) => s,
                None => store.jobs[i].created_at,
            };
            let done: i64 = if base >= now {
                base
            } else {
                now
            };
            store.jobs[i].status = JobStatus::Error;
            store.jobs[i].exit_code = None;
            store.jobs[i].error_message = Some(str_of("Recovered stale job"));
            store.jobs[i].completed_at = Some(done);
            proof {
                assert(Store::spec_status_change(
                    old(store).jobs@[i as int],
                    store.jobs@[i as int],
                    JobStatus::Error,
                    None,
                    Some("Recovered stale job"@),
                    now,
                ));
                assert(crate::store::jobs_wf(store.jobs@));
            }
            if is_company {
                events.push(AppEvent::LeadUpdated(LeadUpdatedPayload { id: entity_id }));
            } else if is_person {
                if let Some(p) = store.get_person_raw(entity_id) {
                    events.push(AppEvent::PersonUpdated(PersonUpdatedPayload {
                        id: entity_id,
                        lead_id: p.lead_id,
                    }));
                } else {
                    proof {
                        if spec_has_person(old(store).people@, entity_id) {
                            let x = spec_person_index(old(store).people@, entity_id);
                            assert(old(store).people@[x].id == entity_id);
                            assert(mid_b.people@[x].id == entity_id);
                            assert(spec_has_person(store.people@, entity_id));
                        }
                        assert(!spec_has_person(old(store).people@, entity_id));
                    }
                }
            }
            recovered = recovered + 1;
            proof {
                if spec_has_person(old(store).people@, entity_id) {
                    let x = spec_person_index(old(store).people@, entity_id);
                    assert(mid_b.people@[x].id == entity_id);
                    assert(spec_has_person(mid_b.people@, entity_id));
                    mid_b.lemma_person_index_unique(x, entity_id);
                }
            }
        }
        i += 1;
    }
    proof {
        assert(old(store).jobs@.subrange(0, n as int) == old(store).jobs@);
        if forall|k: int|
            0 <= k < old(store).jobs@.len() ==> !spec_stale(
                #[trigger] old(store).jobs@[k],
                now,
            ) {
            assert forall|li2: int| 0 <= li2 < old(store).leads@.len() implies !
                spec_lead_needs_reset(old(store).jobs@, #[trigger] old(store).leads@[li2],
                now) by {}
            assert forall|pi2: int| 0 <= pi2 < old(store).people@.len() implies !
                spec_person_needs_reset(old(store).jobs@, #[trigger] old(store).people@[pi2],
                now) by {}
            assert(store.jobs@ =~= old(store).jobs@);
            assert(store.leads@ =~= old(store).leads@);
            assert(store.people@ =~= old(store).people@);
            lemma_stale_events_empty(old(store).jobs@, old(store).people@, now);
            let stale_all = old(store).jobs@.filter(|j: Job| spec_stale(j, now));
            if stale_all.len() > 0 {
                old(store).jobs@.lemma_filter_pred(|j: Job| spec_stale(j, now), 0);
                crate::store::lemma_filter_subset(old(store).jobs@,
                    |j: Job| spec_stale(j, now));
                let m = choose|m: int|
                    0 <= m < old(store).jobs@.len() && old(store).jobs@[m] == stale_all[0];
                assert(spec_stale(old(store).jobs@[m], now));
            }
        }
    }
    (recovered, events)
}

/// The stuck-entity sweep: every lead or person left `in_progress` with no
/// live job is put back to `pending`. A store with nothing stuck comes
/// back untouched.
/// What one pass of the stuck-entity sweep does to the store: every lead
/// or person left `in_progress` with no live job goes back to `pending`,
/// and nothing else moves.
pub open spec fn spec_stuck_sweep(pre: Store, post: Store) -> bool {
    &&& post.jobs == pre.jobs
    &&& post.logs == pre.logs
    &&& post.prompts == pre.prompts
    &&& post.scoring_configs == pre.scoring_configs
    &&& post.lead_scores == pre.lead_scores
    &&& post.company_profile == pre.company_profile
    &&& post.settings == pre.settings
    &&& post.next_log_id == pre.next_log_id
    &&& post.next_lead_id == pre.next_lead_id
    &&& post.next_person_id == pre.next_person_id
    &&& post.next_prompt_id == pre.next_prompt_id
    &&& post.next_config_id == pre.next_config_id
    &&& post.next_score_id == pre.next_score_id
    &&& post.leads@.len() == pre.leads@.len()
    &&& forall|li: int|
        0 <= li < pre.leads@.len() ==> if spec_stuck_lead(pre.jobs@,
            #[trigger] pre.leads@[li]) {
            post.leads@[li] == (Lead {
                research_status: ResearchStatus::Pending,
                ..pre.leads@[li]
            })
        } else {
            post.leads@[li] == pre.leads@[li]
        }
    &&& post.people@.len() == pre.people@.len()
    &&& forall|pi: int|
        0 <= pi < pre.people@.len() ==> if spec_stuck_person(pre.jobs@,
            #[trigger] pre.people@[pi]) {
            post.people@[pi] == (Person {
                research_status: ResearchStatus::Pending,
                ..pre.people@[pi]
            })
        } else {
            post.people@[pi] == pre.people@[pi]
        }
}

pub fn recover_stuck_entities(store: &mut Store) -> (r: (usize, Vec<AppEvent>))
    requires
        old(store).wf(),
    ensures
        final(store).wf(),
        spec_stuck_sweep(*old(store), *final(store)),
        r.0 == old(store).leads@.filter(|l: Lead| spec_stuck_lead(old(store).jobs@, l)).len()
            + old(store).people@.filter(
            |p: Person| spec_stuck_person(old(store).jobs@, p),
        ).len(),
        r.1@.len() == r.0,
        (forall|li: int|
            0 <= li < old(store).leads@.len() ==> !spec_stuck_lead(
                old(store).jobs@,
                #[trigger] old(store).leads@[li],
            )) && (forall|pi: int|
            0 <= pi < old(store).people@.len() ==> !spec_stuck_person(
                old(store).jobs@,
                #[trigger] old(store).people@[pi],
            )) ==> final(store).leads@ == old(store).leads@ && final(store).people@
            == old(store).people@ && r.0 == 0 && r.1@.len() == 0,
    {
        let mut events: Vec<AppEvent> = Vec::new();
        let nl = store.leads.len();
        let mut i: usize = 0;
        while i < nl
            invariant
                store.wf(),
                i <= nl,
                nl == old(store).leads@.len(),
                store.jobs == old(store).jobs,
                store.logs == old(store).logs,
                store.prompts == old(store).prompts,
                store.scoring_configs == old(store).scoring_configs,
                store.lead_scores == old(store).lead_scores,
                store.company_profile == old(store).company_profile,
                store.settings == old(store).settings,
                store.people == old(store).people,
                store.next_lead_id == old(store).next_lead_id,
                store.next_person_id == old(store).next_person_id,
                store.next_log_id == old(store).next_log_id,
                store.next_prompt_id == old(store).next_prompt_id,
                store.next_config_id == old(store).next_config_id,
                store.next_score_id == old(store).next_score_id,
                store.leads@.len() == nl,
                forall|li: int|
                    0 <= li < i ==> if spec_stuck_lead(old(store).jobs@,
                        #[trigger] old(store).leads@[li]) {
                        store.leads@[li] == (Lead {
                            research_status: ResearchStatus::Pending,
                            ..old(store).leads@[li]
                        })
                    } else {
                        store.leads@[li] == old(store).leads@[li]
                    },
                forall|li: int| i <= li < nl ==> #[trigger] store.leads@[li]
                    == old(store).leads@[li],
                events@.len() == old(store).leads@.subrange(0, i as int).filter(
                    |l: Lead| spec_stuck_lead(old(store).jobs@, l),
                ).len(),
            decreases nl - i,
        {
            proof {
                crate::store::lemma_filter_step(old(store).leads@,
                    |l: Lead| spec_stuck_lead(old(store).jobs@, l), i as int);
            }
            let l_in_progress = matches!(store.leads[i].research_status,
                ResearchStatus::InProgress);
            let lead_id = store.leads[i].id;
            if l_in_progress && store.get_active_job_for_entity(lead_id,
                "company_research").is_none() {
                proof {
                    store.lemma_lead_index_unique(i as int, lead_id);
                }
                store.set_lead_research_status(lead_id, ResearchStatus::Pending);
                events.push(AppEvent::LeadUpdated(LeadUpdatedPayload { id: lead_id }));
            }
            i += 1;
        }
        proof {
            assert(old(store).leads@.subrange(0, nl as int) == old(store).leads@);
        }
        let ghost lead_count = events@.len() as int;
        let np = store.people.len();
        let mut i: usize = 0;
        while i < np
            invariant
                store.wf(),
                i <= np,
                np == old(store).people@.len(),
                store.jobs == old(store).jobs,
                store.logs == old(store).logs,
                store.prompts == old(store).prompts,
                store.scoring_configs == old(store).scoring_configs,
                store.lead_scores == old(store).lead_scores,
                store.company_profile == old(store).company_profile,
                store.settings == old(store).settings,
                store.next_lead_id == old(store).next_lead_id,
                store.next_person_id == old(store).next_person_id,
                store.next_log_id == old(store).next_log_id,
                store.next_prompt_id == old(store).next_prompt_id,
                store.next_config_id == old(store).next_config_id,
                store.next_score_id == old(store).next_score_id,
                store.leads@.len() == old(store).leads@.len(),
                forall|li: int|
                    0 <= li < old(store).leads@.len() ==> if spec_stuck_lead(
                        old(store).jobs@,
                        #[trigger] old(store).leads@[li],
                    ) {
                        store.leads@[li] == (Lead {
                            research_status: ResearchStatus::Pending,
                            ..old(store).leads@[li]
                        })
                    } else {
                        store.leads@[li] == old(store).leads@[li]
                    },
                store.people@.len() == np,
                forall|pi: int|
                    0 <= pi < i ==> if spec_stuck_person(old(store).jobs@,
                        #[trigger] old(store).people@[pi]) {
                        store.people@[pi] == (Person {
                            research_status: ResearchStatus::Pending,
                            ..old(store).people@[pi]
                        })
                    } else {
                        store.people@[pi] == old(store).people@[pi]
                    },
                forall|pi: int| i <= pi < np ==> #[trigger] store.people@[pi]
                    == old(store).people@[pi],
                lead_count == old(store).leads@.filter(
                    |l: Lead| spec_stuck_lead(old(store).jobs@, l),
                ).len(),
                events@.len() == lead_count + old(store).people@.subrange(0, i as int).filter(
                    |p: Person| spec_stuck_person(old(store).jobs@, p),
                ).len(),
            decreases np - i,
        {
            proof {
                crate::store::lemma_filter_step(old(store).people@,
                    |p: Person| spec_stuck_person(old(store).jobs@, p), i as int);
            }
            let p_in_progress = matches!(store.people[i].research_status,
                ResearchStatus::InProgress);
            let person_id = store.people[i].id;
            let person_lead = store.people[i].lead_id;
            if p_in_progress && store.get_active_job_for_entity(person_id,
                "person_research").is_none() {
                proof {
                    store.lemma_person_index_unique(i as int, person_id);
                }
                store.set_person_research_status(person_id, ResearchStatus::Pending);
                events.push(AppEvent::PersonUpdated(PersonUpdatedPayload {
                    id: person_id,
                    lead_id: person_lead,
                }));
            }
            i += 1;
        }
        proof {
            assert(old(store).people@.subrange(0, np as int) == old(store).people@);
            if (forall|li: int|
                0 <= li < old(store).leads@.len() ==> !spec_stuck_lead(
                    old(store).jobs@,
                    #[trigger] old(store).leads@[li],
                )) && (forall|pi: int|
                0 <= pi < old(store).people@.len() ==> !spec_stuck_person(
                    old(store).jobs@,
                    #[trigger] old(store).people@[pi],
                )) {
                assert(store.leads@ =~= old(store).leads@);
                assert(store.people@ =~= old(store).people@);
                let stuck_l = old(store).leads@.filter(
                    |l: Lead| spec_stuck_lead(old(store).jobs@, l),
                );
                if stuck_l.len() > 0 {
                    old(store).leads@.lemma_filter_pred(
                        |l: Lead| spec_stuck_lead(old(store).jobs@, l), 0);
                    crate::store::lemma_filter_subset(old(store).leads@,
                        |l: Lead| spec_stuck_lead(old(store).jobs@, l));
                    let m = choose|m: int|
                        0 <= m < old(store).leads@.len() && old(store).leads@[m]
                            == stuck_l[0];
                    assert(spec_stuck_lead(old(store).jobs@, old(store).leads@[m]));
                }
                let stuck_p = old(store).people@.filter(
                    |p: Person| spec_stuck_person(old(store).jobs@, p),
                );
                if stuck_p.len() > 0 {
                    old(store).people@.lemma_filter_pred(
                        |p: Person| spec_stuck_person(old(store).jobs@, p), 0);
                    crate::store::lemma_filter_subset(old(store).people@,
                        |p: Person| spec_stuck_person(old(store).jobs@, p));
                    let m = choose|m: int|
                        0 <= m < old(store).people@.len() && old(store).people@[m]
                            == stuck_p[0];
                    assert(spec_stuck_person(old(store).jobs@, old(store).people@[m]));
                }
            }
        }
        let recovered = events.len();
        (recovered, events)
    }

/// Both sweeps in their standing order: stale jobs first, stuck entities
/// second. This is the operation run at startup and on demand.
pub fn recover_on_startup(store: &mut Store, now: i64) -> (r: (usize, Vec<AppEvent>))
    requires
        old(store).wf(),
        i64::MIN + STALE_JOB_THRESHOLD_SECS <= now <= 4_000_000_000_000,
    ensures
        final(store).wf(),
        exists|mid: Store|
            #[trigger] spec_stale_sweep(*old(store), mid, now) && spec_stuck_sweep(
                mid,
                *final(store),
            ),
        final(store).jobs@.len() == old(store).jobs@.len(),
        forall|k: int|
            0 <= k < old(store).jobs@.len() ==> if spec_stale(#[trigger] old(store).jobs@[k],
                now) {
                Store::spec_status_change(
                    old(store).jobs@[k],
                    final(store).jobs@[k],
                    JobStatus::Error,
                    None,
                    Some("Recovered stale job"@),
                    now,
                )
            } else {
                final(store).jobs@[k] == old(store).jobs@[k]
            },
        r.1@.len() >= spec_stale_events(old(store).jobs@, old(store).people@, now).len(),
        forall|k: int|
            0 <= k < spec_stale_events(old(store).jobs@, old(store).people@, now).len()
                ==> r.1@[k] == spec_stale_events(old(store).jobs@, old(store).people@,
                now)[k],
{
    let (stale_count, mut events) = recover_stale_jobs(store, now);
    let ghost mid = *store;
    let (stuck_count, mut more) = recover_stuck_entities(store);
    events.append(&mut more);
    proof {
        assert(spec_stale_sweep(*old(store), mid, now) && spec_stuck_sweep(mid, *store));
    }
    let total = match stale_count.checked_add(stuck_count) {
        Some(t) => t,
        None => usize::MAX,
    };
    (total, events)
}

} // verus!
