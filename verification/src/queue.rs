use vstd::prelude::*;
use vstd::string::StringExecFns;
use crate::events::{AppEvent, JobCreatedPayload, JobStatusChangedPayload, LeadUpdatedPayload,
    PersonUpdatedPayload};
use crate::result_parser::JobMetadata;
use crate::schema::{Job, JobStatus, NewJob, ResearchStatus};
use crate::store::{Store, StoreError, lemma_filter_distinct_keys, lemma_filter_step,
    spec_has_job, spec_job_index, str_of};
use crate::MAX_CONCURRENT_JOBS;

verus! {

broadcast use vstd::string::group_string_axioms;

/// Which kind of entity a job operates on.
#[derive(Debug, Clone, Copy, PartialEq, Eq, Structural)]
pub enum EntityType {
    Lead,
    Person,
}

/// What to reset if the job dies before it delivers: the entity and the
/// research status to put back.
#[derive(Debug)]
pub struct EntityContext {
    pub entity_type: EntityType,
    pub entity_id: i64,
    pub rollback_status: ResearchStatus,
}

impl Clone for EntityContext {
    fn clone(&self) -> (r: Self)
        ensures
            r == *self,
    {
        EntityContext {
            entity_type: self.entity_type,
            entity_id: self.entity_id,
            rollback_status: self.rollback_status,
        }
    }
}

/// What an accepted submission hands back to the caller.
#[derive(Debug)]
pub struct ResearchResult {
    pub job_id: String,
    pub status: String,
}

/// How a job ended, as reported to the caller.
#[derive(Debug)]
pub struct JobResult {
    pub job_id: String,
    pub status: String,
    pub exit_code: Option<i32>,
    pub reason: String,
}

/// One live entry of the in-memory registry: a job between admission and
/// its terminal transition.
#[derive(Debug)]
pub struct ActiveJob {
    pub job_id: String,
    pub status: JobStatus,
}

/// How the wait for a permit ended.
#[derive(Debug, Clone, Copy, PartialEq, Eq, Structural)]
pub enum QueueWaitOutcome {
    PermitAcquired,
    QueueTimeout,
    Cancelled,
}

/// How the running child ended.
#[derive(Debug, Clone, Copy, PartialEq, Eq, Structural)]
pub enum RunOutcome {
    Exited(i32),
    WaitFailed,
    ExecTimeout,
    Cancelled,
}

/// How many job rows are running.
pub open spec fn spec_count_running(jobs: Seq<Job>) -> int
    decreases jobs.len(),
{
    if jobs.len() == 0 {
        0
    } else {
        spec_count_running(jobs.drop_last()) + (if jobs.last().status == JobStatus::Running {
            1int
        } else {
            0
        })
    }
}

pub proof fn lemma_count_running_nonneg(jobs: Seq<Job>)
    ensures
        0 <= spec_count_running(jobs),
    decreases jobs.len(),
{
    if jobs.len() > 0 {
        lemma_count_running_nonneg(jobs.drop_last());
    }
}

pub proof fn lemma_count_running_push(jobs: Seq<Job>, j: Job)
    ensures
        spec_count_running(jobs.push(j)) == spec_count_running(jobs) + (
        if j.status == JobStatus::Running {
            1int
        } else {
            0
        }),
{
    assert(jobs.push(j).drop_last() =~= jobs);
    assert(jobs.push(j).last() == j);
}

pub proof fn lemma_count_running_update(jobs: Seq<Job>, i: int, v: Job)
    requires
        0 <= i < jobs.len(),
    ensures
        spec_count_running(jobs.update(i, v)) == spec_count_running(jobs) + (
        if v.status == JobStatus::Running {
            1int
        } else {
            0
        }) - (if jobs[i].status == JobStatus::Running {
            1int
        } else {
            0
        }),
    decreases jobs.len(),
{
    let u = jobs.update(i, v);
    if i == jobs.len() - 1 {
        assert(u.drop_last() =~= jobs.drop_last());
        assert(u.last() == v);
    } else {
        assert(u.drop_last() =~= jobs.drop_last().update(i, v));
        assert(u.last() == jobs.last());
        lemma_count_running_update(jobs.drop_last(), i, v);
    }
}

/// The bounded-concurrency supervisor's own state: the permits handed out
/// and the registry of admitted jobs.
#[derive(Debug)]
pub struct JobQueue {
    pub permits_in_use: usize,
    pub active: Vec<ActiveJob>,
}

impl JobQueue {
    /// The registry invariant: ids are unique and never more permits are
    /// out than the concurrency bound allows.
    pub open spec fn wf(self) -> bool {
        &&& self.permits_in_use <= MAX_CONCURRENT_JOBS
        &&& forall|i: int, j: int|
            #![trigger self.active@[i].job_id, self.active@[j].job_id]
            0 <= i < j < self.active@.len() ==> self.active@[i].job_id@
                != self.active@[j].job_id@
    }

    pub fn new() -> (r: JobQueue)
        ensures
            r.wf(),
            r.permits_in_use == 0,
            r.active@.len() == 0,
    {
        JobQueue { permits_in_use: 0, active: Vec::new() }
    }

    pub open spec fn spec_has_entry(self, id: Seq<char>) -> bool {
        exists|i: int| 0 <= i < self.active@.len() && self.active@[i].job_id@ == id
    }

    pub open spec fn spec_entry_index(self, id: Seq<char>) -> int {
        choose|i: int| 0 <= i < self.active@.len() && self.active@[i].job_id@ == id
    }

    fn find_entry_index(&self, id: &String) -> (r: Option<usize>)
        ensures
            match r {
                Some(i) => i < self.active@.len() && self.active@[i as int].job_id@ == id@,
                None => !self.spec_has_entry(id@),
            },
    {
        let mut i: usize = 0;
        while i < self.active.len()
            invariant
                i <= self.active@.len(),
                forall|k: int| 0 <= k < i ==> self.active@[k].job_id@ != id@,
            decreases self.active@.len() - i,
        {
            if self.active[i].job_id == *id {
                return Some(i);
            }
            i += 1;
        }
        None
    }

    pub proof fn lemma_entry_index_unique(self, i: int, id: Seq<char>)
        requires
            self.wf(),
            0 <= i < self.active@.len(),
            self.active@[i].job_id@ == id,
        ensures
            self.spec_has_entry(id),
            self.spec_entry_index(id) == i,
    {
        assert(self.spec_has_entry(id));
        let j = self.spec_entry_index(id);
        if i < j {
            assert(self.active@[i].job_id@ != self.active@[j].job_id@);
        } else if j < i {
            assert(self.active@[j].job_id@ != self.active@[i].job_id@);
        }
    }

    /// Removes the registry entry for this id, if one is live.
    fn remove_entry(&mut self, id: &String)
        requires
            old(self).wf(),
        ensures
            final(self).wf(),
            final(self).permits_in_use == old(self).permits_in_use,
            final(self).active@ == old(self).active@.filter(
                |e: ActiveJob| e.job_id@ != id@,
            ),
    {
        let ghost orig = self.active@;
        let ghost mut p: int = 0;
        let mut i: usize = 0;
        while i < self.active.len()
            invariant
                0 <= p <= orig.len(),
                i == orig.subrange(0, p).filter(|e: ActiveJob| e.job_id@ != id@).len(),
                self.active@ =~= orig.subrange(0, p).filter(|e: ActiveJob| e.job_id@ != id@)
                    + orig.subrange(p, orig.len() as int),
                self.permits_in_use == old(self).permits_in_use,
                orig == old(self).active@,
            decreases self.active@.len() - i,
        {
            proof {
                assert(self.active@[i as int] == orig[p]);
                lemma_filter_step(orig, |e: ActiveJob| e.job_id@ != id@, p);
            }
            if self.active[i].job_id != *id {
                i += 1;
                proof {
                    p = p + 1;
                    assert(self.active@ =~= orig.subrange(0, p).filter(
                        |e: ActiveJob| e.job_id@ != id@,
                    ) + orig.subrange(p, orig.len() as int));
                }
            } else {
                self.active.remove(i);
                proof {
                    p = p + 1;
                    assert(self.active@ =~= orig.subrange(0, p).filter(
                        |e: ActiveJob| e.job_id@ != id@,
                    ) + orig.subrange(p, orig.len() as int));
                }
            }
        }
        proof {
            assert(p == orig.len());
            assert(orig.subrange(0, orig.len() as int) == orig);
            assert(self.active@ =~= orig.filter(|e: ActiveJob| e.job_id@ != id@));
            lemma_filter_distinct_keys(orig, |e: ActiveJob| e.job_id@ != id@,
                |e: ActiveJob| e.job_id@);
        }
    }

    /// The ids of the jobs the registry still holds, in admission order.
    pub fn get_active_jobs(&self) -> (r: Vec<String>)
        ensures
            r@.len() == self.active@.len(),
            forall|i: int| 0 <= i < r@.len() ==> r@[i]@ == self.active@[i].job_id@,
    {
        let mut out: Vec<String> = Vec::new();
        let mut i: usize = 0;
        while i < self.active.len()
            invariant
                i <= self.active@.len(),
                out@.len() == i,
                forall|k: int| 0 <= k < i ==> out@[k]@ == self.active@[k].job_id@,
            decreases self.active@.len() - i,
        {
            out.push(self.active[i].job_id.clone());
            i += 1;
        }
        out
    }

    /// Forgets the registry entry so the supervising task sees the
    /// cancellation; reports whether the id was live. The caller delivers
    /// the actual cancel signal.
    pub fn kill_job(&mut self, job_id: &String) -> (r: bool)
        requires
            old(self).wf(),
        ensures
            final(self).wf(),
            final(self).permits_in_use == old(self).permits_in_use,
            r == old(self).spec_has_entry(job_id@),
            final(self).active@ == old(self).active@.filter(
                |e: ActiveJob| e.job_id@ != job_id@,
            ),
    {
        let found = self.find_entry_index(job_id).is_some();
        self.remove_entry(job_id);
        found
    }
}

/// The scheduler's cross-cutting invariant: both halves are well formed
/// and every running job row is covered by a permit.
pub open spec fn spec_scheduler_inv(q: JobQueue, s: Store) -> bool {
    &&& q.wf()
    &&& s.wf()
    &&& spec_count_running(s.jobs@) <= q.permits_in_use
}

/// Bounded concurrency: under the scheduler invariant, the number of jobs
/// with status `running` in the store never exceeds the permit count.
pub proof fn lemma_concurrency_bound(q: JobQueue, s: Store)
    requires
        spec_scheduler_inv(q, s),
    ensures
        spec_count_running(s.jobs@) <= MAX_CONCURRENT_JOBS,
{
}

/// At most one live job per entity and kind, when callers follow the dedup
/// protocol: admitting into a store with no live match leaves exactly one.
pub proof fn lemma_at_most_one_active(pre: Seq<Job>, post: Seq<Job>, j: Job, entity_id: i64,
    kind: Seq<char>)
    requires
        post == pre.push(j),
        spec_count_active(pre, entity_id, kind) == 0,
    ensures
        spec_count_active(post, entity_id, kind) <= 1,
{
    lemma_count_active_push(pre, j, entity_id, kind);
}

/// The argument vector the child is invoked with: the fixed flags, the
/// optional browser flag, the model, and the prompt last.
pub fn build_child_args(model: &str, use_chrome: bool, prompt: &str) -> (r: Vec<String>)
    ensures
        r@.len() == (if use_chrome {
            9int
        } else {
            8int
        }),
        r@[0]@ == "-p"@,
        r@[1]@ == "--output-format"@,
        r@[2]@ == "stream-json"@,
        r@[3]@ == "--verbose"@,
        r@[4]@ == "--dangerously-skip-permissions"@,
        use_chrome ==> r@[5]@ == "--chrome"@,
        r@[r@.len() - 3]@ == "--model"@,
        r@[r@.len() - 2]@ == model@,
        r@[r@.len() - 1]@ == prompt@,
{
    let mut args: Vec<String> = Vec::new();
    args.push(str_of("-p"));
    args.push(str_of("--output-format"));
    args.push(str_of("stream-json"));
    args.push(str_of("--verbose"));
    args.push(str_of("--dangerously-skip-permissions"));
    if use_chrome {
        args.push(str_of("--chrome"));
    }
    args.push(str_of("--model"));
    args.push(str_of(model));
    args.push(str_of(prompt));
    args
}

/// The gateway variables set on the child when the gateway toggle is on:
/// the key copied from the caller's token, and the base url and timeout
/// with their defaults.
pub fn gateway_env(auth_token: Option<&str>, base_url: Option<&str>, timeout_ms: Option<&str>)
    -> (r: Vec<(String, String)>)
    ensures
        r@.len() == (if auth_token is Some {
            3int
        } else {
            2int
        }),
        auth_token matches Some(t) ==> r@[0].0@ == "ANTHROPIC_API_KEY"@ && r@[0].1@ == t@,
        ({
            let base = r@[r@.len() - 2];
            &&& base.0@ == "ANTHROPIC_BASE_URL"@
            &&& base.1@ == (match base_url {
                Some(u) => u@,
                None => "https://api.z.ai/api/anthropic"@,
            })
        }),
        ({
            let to = r@[r@.len() - 1];
            &&& to.0@ == "API_TIMEOUT_MS"@
            &&& to.1@ == (match timeout_ms {
                Some(t) => t@,
                None => "3000000"@,
            })
        }),
{
    let mut out: Vec<(String, String)> = Vec::new();
    if let Some(t) = auth_token {
        out.push((str_of("ANTHROPIC_API_KEY"), str_of(t)));
    }
    let base: String = match base_url {
        Some(u) => str_of(u),
        None => str_of("https://api.z.ai/api/anthropic"),
    };
    out.push((str_of("ANTHROPIC_BASE_URL"), base));
    let to: String = match timeout_ms {
        Some(t) => str_of(t),
        None => str_of("3000000"),
    };
    out.push((str_of("API_TIMEOUT_MS"), to));
    out
}

/// How a run outcome is recorded: a zero exit completes the job, any other
/// exit or a wait failure is an error, the timer gives `timeout`, a cancel
/// signal gives `cancelled`. Only the zero exit counts as success.
pub open spec fn spec_classify_exit(outcome: RunOutcome) -> (JobStatus, Option<i32>, bool) {
    match outcome {
        RunOutcome::Exited(code) => if code == 0 {
            (JobStatus::Completed, Some(0i32), true)
        } else {
            (JobStatus::Error, Some(code), false)
        },
        RunOutcome::WaitFailed => (JobStatus::Error, None, false),
        RunOutcome::ExecTimeout => (JobStatus::Timeout, None, false),
        RunOutcome::Cancelled => (JobStatus::Cancelled, None, false),
    }
}

pub fn classify_exit(outcome: RunOutcome) -> (r: (JobStatus, Option<i32>, bool))
    ensures
        r == spec_classify_exit(outcome),
{
    match outcome {
        RunOutcome::Exited(code) => if code == 0 {
            (JobStatus::Completed, Some(0i32), true)
        } else {
            (JobStatus::Error, Some(code), false)
        },
        RunOutcome::WaitFailed => (JobStatus::Error, None, false),
        RunOutcome::ExecTimeout => (JobStatus::Timeout, None, false),
        RunOutcome::Cancelled => (JobStatus::Cancelled, None, false),
    }
}

/// All tables other than the job rows and the two entity tables are
/// untouched; what the supervisor's early-exit paths leave alone.
pub open spec fn same_but_jobs_and_entities(a: Store, b: Store) -> bool {
    &&& a.logs == b.logs
    &&& a.prompts == b.prompts
    &&& a.scoring_configs == b.scoring_configs
    &&& a.lead_scores == b.lead_scores
    &&& a.company_profile == b.company_profile
    &&& a.settings == b.settings
    &&& a.next_log_id == b.next_log_id
    &&& a.next_lead_id == b.next_lead_id
    &&& a.next_person_id == b.next_person_id
    &&& a.next_prompt_id == b.next_prompt_id
    &&& a.next_config_id == b.next_config_id
    &&& a.next_score_id == b.next_score_id
}

/// What putting the entity back does to the two entity tables: the named
/// row's research status becomes the rollback status, and the other table
/// does not move.
pub open spec fn spec_entity_reset(pre: Store, post: Store, ctx: EntityContext) -> bool {
    match ctx.entity_type {
        EntityType::Lead => {
            &&& (if crate::store::spec_has_lead(pre.leads@, ctx.entity_id) {
                post.leads@ == pre.leads@.update(
                    crate::store::spec_lead_index(pre.leads@, ctx.entity_id),
                    crate::schema::Lead {
                        research_status: ctx.rollback_status,
                        ..pre.leads@[crate::store::spec_lead_index(pre.leads@,
                            ctx.entity_id)]
                    },
                )
            } else {
                post.leads == pre.leads
            })
            &&& post.people == pre.people
        },
        EntityType::Person => {
            &&& (if crate::store::spec_has_person(pre.people@, ctx.entity_id) {
                post.people@ == pre.people@.update(
                    crate::store::spec_person_index(pre.people@, ctx.entity_id),
                    crate::schema::Person {
                        research_status: ctx.rollback_status,
                        ..pre.people@[crate::store::spec_person_index(pre.people@,
                            ctx.entity_id)]
                    },
                )
            } else {
                post.people == pre.people
            })
            &&& post.leads == pre.leads
        },
    }
}

/// The events that announce a reset: one lead update, or one person update
/// naming the person's lead; a missing person yields none.
pub open spec fn spec_reset_events(events: Seq<AppEvent>, pre: Store, post: Store,
    ctx: EntityContext) -> bool {
    match ctx.entity_type {
        EntityType::Lead => events.len() == 1 && events[0] == AppEvent::LeadUpdated(
            LeadUpdatedPayload { id: ctx.entity_id },
        ),
        EntityType::Person => if crate::store::spec_has_person(pre.people@, ctx.entity_id) {
            events.len() == 1 && events[0] == AppEvent::PersonUpdated(PersonUpdatedPayload {
                id: ctx.entity_id,
                lead_id: post.people@[crate::store::spec_person_index(post.people@,
                    ctx.entity_id)].lead_id,
            })
        } else {
            events.len() == 0
        },
    }
}

/// What a terminal early exit writes onto the job row, when the state
/// machine allows the transition; a row already terminal is left alone.
pub open spec fn spec_job_ended(pre: Store, post: Store, id: Seq<char>, status: JobStatus,
    exit_code: Option<i32>, message: Seq<char>, now: i64) -> bool {
    if spec_has_job(pre.jobs@, id) && pre.jobs@[spec_job_index(pre.jobs@, id)]
        .status.spec_can_transition(status) {
        post.jobs@ == pre.jobs@.update(
            spec_job_index(pre.jobs@, id),
            post.jobs@[spec_job_index(pre.jobs@, id)],
        ) && Store::spec_status_change(
            pre.jobs@[spec_job_index(pre.jobs@, id)],
            post.jobs@[spec_job_index(pre.jobs@, id)],
            status,
            exit_code,
            Some(message),
            now,
        )
    } else {
        post.jobs == pre.jobs
    }
}

/// Resets the entity named by the rollback context and returns the events
/// that announce it; a missing person yields no event, as there is no lead
/// to name.
pub fn reset_entity(store: &mut Store, ctx: &EntityContext) -> (r: Vec<AppEvent>)
    requires
        old(store).wf(),
    ensures
        final(store).wf(),
        same_but_jobs_and_entities(*old(store), *final(store)),
        final(store).jobs == old(store).jobs,
        spec_entity_reset(*old(store), *final(store), *ctx),
        spec_reset_events(r@, *old(store), *final(store), *ctx),
{
    let mut events: Vec<AppEvent> = Vec::new();
    match ctx.entity_type {
        EntityType::Lead => {
            store.set_lead_research_status(ctx.entity_id, ctx.rollback_status);
            events.push(AppEvent::LeadUpdated(LeadUpdatedPayload { id: ctx.entity_id }));
        },
        EntityType::Person => {
            let updated = store.set_person_research_status(ctx.entity_id,
                ctx.rollback_status);
            if updated {
                proof {
                    let idx = crate::store::spec_person_index(old(store).people@,
                        ctx.entity_id);
                    assert(store.people@[idx].id == ctx.entity_id);
                    assert(crate::store::spec_has_person(store.people@, ctx.entity_id));
                }
                if let Some(p) = store.get_person_raw(ctx.entity_id) {
                    events.push(AppEvent::PersonUpdated(PersonUpdatedPayload {
                        id: ctx.entity_id,
                        lead_id: p.lead_id,
                    }));
                }
            }
        },
    }
    events
}

/// Every live registry entry mirrors its store row: the row, if present,
/// is not terminal and carries the same status.
pub open spec fn spec_registry_live(q: JobQueue, s: Store) -> bool {
    forall|i: int|
        0 <= i < q.active@.len() ==> {
            let e = #[trigger] q.active@[i];
            spec_has_job(s.jobs@, e.job_id@) ==> {
                let j = s.jobs@[spec_job_index(s.jobs@, e.job_id@)];
                !j.status.spec_is_terminal() && j.status == e.status
            }
        }
}

impl JobQueue {
    /// Admits a job: the row is durably recorded as `queued` with the
    /// configured model before anything is spawned, the registry learns the
    /// id, and the admission event is returned.
    pub fn admit_job(&mut self, store: &mut Store, id: &String, metadata: &JobMetadata,
        entity_label: &str, prompt: &str, working_dir: &str, now: i64)
        -> (r: Result<JobCreatedPayload, StoreError>)
        requires
            spec_scheduler_inv(*old(self), *old(store)),
            spec_registry_live(*old(self), *old(store)),
            !old(self).spec_has_entry(id@),
        ensures
            spec_scheduler_inv(*final(self), *final(store)),
            spec_registry_live(*final(self), *final(store)),
            final(self).permits_in_use == old(self).permits_in_use,
            crate::store::same_but_jobs(*old(store), *final(store)),
            match r {
                Ok(ev) => {
                    &&& !spec_has_job(old(store).jobs@, id@)
                    &&& final(store).jobs@ == old(store).jobs@.push(final(store).jobs@.last())
                    &&& {
                        let j = final(store).jobs@.last();
                        &&& j.id@ == id@
                        &&& j.job_type@ == metadata.job_type.spec_str()
                        &&& j.entity_id == metadata.entity_id
                        &&& j.entity_label@ == entity_label@
                        &&& j.status == JobStatus::Queued
                        &&& j.prompt@ == prompt@
                        &&& (j.model matches Some(m) && m@ == old(store).settings.model@)
                        &&& j.working_dir@ == working_dir@
                        &&& (j.output_path matches Some(p) && p@
                            == metadata.primary_output_path@)
                        &&& j.created_at == now
                    }
                    &&& final(self).active@ == old(self).active@.push(
                        final(self).active@.last(),
                    )
                    &&& final(self).active@.last().job_id@ == id@
                    &&& final(self).active@.last().status == JobStatus::Queued
                    &&& ev.job_id@ == id@
                    &&& ev.job_type@ == metadata.job_type.spec_str()
                    &&& ev.entity_id == metadata.entity_id
                    &&& ev.entity_label@ == entity_label@
                },
                Err(_) => {
                    &&& spec_has_job(old(store).jobs@, id@)
                    &&& *final(store) == *old(store)
                    &&& *final(self) == *old(self)
                },
            },
    {
        let settings = store.get_settings();
        let row = NewJob {
            id: id.clone(),
            job_type: str_of(metadata.job_type.as_str()),
            entity_id: metadata.entity_id,
            entity_label: str_of(entity_label),
            prompt: str_of(prompt),
            model: Some(settings.model),
            working_dir: str_of(working_dir),
            output_path: Some(metadata.primary_output_path.clone()),
        };
        if let Err(e) = store.insert_job(&row, now) {
            return Err(e);
        }
        self.active.push(ActiveJob { job_id: id.clone(), status: JobStatus::Queued });
        proof {
            lemma_count_running_push(old(store).jobs@, store.jobs@.last());
            assert forall|i: int| 0 <= i < self.active@.len() implies {
                let e = #[trigger] self.active@[i];
                spec_has_job(store.jobs@, e.job_id@) ==> {
                    let j = store.jobs@[spec_job_index(store.jobs@, e.job_id@)];
                    !j.status.spec_is_terminal() && j.status == e.status
                }
            } by {
                let e = self.active@[i];
                if i < old(self).active@.len() {
                    assert(e == old(self).active@[i]);
                    if spec_has_job(store.jobs@, e.job_id@) {
                        let k = spec_job_index(store.jobs@, e.job_id@);
                        if k < old(store).jobs@.len() {
                            store.lemma_job_index_unique(k, e.job_id@);
                            old(store).lemma_job_index_unique(k, e.job_id@);
                        } else {
                            assert(store.jobs@[k] == store.jobs@.last());
                        }
                    }
                } else {
                    store.lemma_job_index_unique(store.jobs@.len() - 1, id@);
                }
            }
        }
        Ok(JobCreatedPayload {
            job_id: id.clone(),
            job_type: str_of(metadata.job_type.as_str()),
            entity_id: metadata.entity_id,
            entity_label: str_of(entity_label),
        })
    }

    /// Takes one permit; the caller's semaphore guarantees one is free.
    pub fn acquire_permit(&mut self)
        requires
            old(self).wf(),
            old(self).permits_in_use < MAX_CONCURRENT_JOBS,
        ensures
            final(self).wf(),
            *final(self) == (JobQueue {
                permits_in_use: (old(self).permits_in_use + 1) as usize,
                ..*old(self)
            }),
    {
        self.permits_in_use = self.permits_in_use + 1;
    }

    /// Returns one permit.
    pub fn release_permit(&mut self, store: &Store)
        requires
            old(self).wf(),
            old(self).permits_in_use >= 1,
            spec_count_running(store.jobs@) <= old(self).permits_in_use - 1,
        ensures
            final(self).wf(),
            *final(self) == (JobQueue {
                permits_in_use: (old(self).permits_in_use - 1) as usize,
                ..*old(self)
            }),
            spec_count_running(store.jobs@) <= final(self).permits_in_use,
    {
        self.permits_in_use = self.permits_in_use - 1;
    }

    /// Moves an admitted job to `running`, in memory and durably, under a
    /// permit the caller has just acquired; returns the status event.
    pub fn begin_running(&mut self, store: &mut Store, id: &String, now: i64)
        -> (r: Result<JobStatusChangedPayload, StoreError>)
        requires
            spec_scheduler_inv(*old(self), *old(store)),
            spec_registry_live(*old(self), *old(store)),
            spec_count_running(old(store).jobs@) < old(self).permits_in_use,
        ensures
            spec_scheduler_inv(*final(self), *final(store)),
            spec_registry_live(*final(self), *final(store)),
            final(self).permits_in_use == old(self).permits_in_use,
            crate::store::same_but_jobs(*old(store), *final(store)),
            match r {
                Ok(ev) => {
                    &&& spec_has_job(old(store).jobs@, id@)
                    &&& old(store).jobs@[spec_job_index(old(store).jobs@, id@)].status
                        .spec_can_transition(JobStatus::Running)
                    &&& final(store).jobs@ == old(store).jobs@.update(
                        spec_job_index(old(store).jobs@, id@),
                        final(store).jobs@[spec_job_index(old(store).jobs@, id@)],
                    )
                    &&& Store::spec_status_change(
                        old(store).jobs@[spec_job_index(old(store).jobs@, id@)],
                        final(store).jobs@[spec_job_index(old(store).jobs@, id@)],
                        JobStatus::Running,
                        None,
                        None,
                        now,
                    )
                    &&& ev.job_id@ == id@
                    &&& ev.status@ == "running"@
                    &&& ev.exit_code is None
                },
                Err(_) => {
                    &&& *final(store) == *old(store)
                    &&& *final(self) == *old(self)
                    &&& !(spec_has_job(old(store).jobs@, id@) && old(store).jobs@[
                        spec_job_index(old(store).jobs@, id@)].status.spec_can_transition(
                        JobStatus::Running,
                    ))
                },
            },
    {
        if let Err(e) = store.update_job_status(id, JobStatus::Running, None, None, now) {
            return Err(e);
        }
        proof {
            let idx = spec_job_index(old(store).jobs@, id@);
            lemma_count_running_update(old(store).jobs@, idx, store.jobs@[idx]);
        }
        // Mirror the transition in the registry entry, if it is still live.
        let ghost mid_self = *self;
        if let Some(i) = self.find_entry_index(id) {
            self.active[i].status = JobStatus::Running;
            proof {
                assert(final(self).active@ =~= mid_self.active@.update(i as int,
                    final(self).active@[i as int]));
            }
        }
        proof {
            let idx = spec_job_index(old(store).jobs@, id@);
            assert forall|i: int| 0 <= i < self.active@.len() implies {
                let e = #[trigger] self.active@[i];
                spec_has_job(store.jobs@, e.job_id@) ==> {
                    let j = store.jobs@[spec_job_index(store.jobs@, e.job_id@)];
                    !j.status.spec_is_terminal() && j.status == e.status
                }
            } by {
                let e = self.active@[i];
                if spec_has_job(store.jobs@, e.job_id@) {
                    crate::store::lemma_job_update_lookup(old(store).jobs@, store.jobs@, idx,
                        e.job_id@);
                    if e.job_id@ == id@ {
                        mid_self.lemma_entry_index_unique(i, id@);
                    } else {
                        assert(e == mid_self.active@[i]);
                    }
                }
            }
        }
        Ok(JobStatusChangedPayload {
            job_id: id.clone(),
            status: str_of("running"),
            exit_code: None,
        })
    }

    /// Ends a job: the terminal status, exit code and message are durably
    /// recorded, the registry forgets the id, and the permit is returned
    /// when the caller held one. The status event is handed back.
    pub fn finish_job(&mut self, store: &mut Store, id: &String, status: JobStatus,
        exit_code: Option<i32>, error_message: Option<&str>, release: bool, now: i64)
        -> (r: JobStatusChangedPayload)
        requires
            spec_scheduler_inv(*old(self), *old(store)),
            spec_registry_live(*old(self), *old(store)),
            status.spec_is_terminal(),
            release ==> old(self).permits_in_use >= 1,
            release ==> (spec_has_job(old(store).jobs@, id@)
                && old(store).jobs@[spec_job_index(old(store).jobs@, id@)].status
                == JobStatus::Running) || spec_count_running(old(store).jobs@)
                < old(self).permits_in_use,
        ensures
            spec_scheduler_inv(*final(self), *final(store)),
            spec_registry_live(*final(self), *final(store)),
            crate::store::same_but_jobs(*old(store), *final(store)),
            final(self).active@ == old(self).active@.filter(
                |e: ActiveJob| e.job_id@ != id@,
            ),
            final(self).permits_in_use == old(self).permits_in_use - (if release {
                1int
            } else {
                0
            }),
            r.job_id@ == id@,
            r.status@ == status.spec_str(),
            r.exit_code == exit_code,
            spec_has_job(old(store).jobs@, id@) && old(store).jobs@[spec_job_index(
                old(store).jobs@,
                id@,
            )].status.spec_can_transition(status) ==> {
                &&& final(store).jobs@ == old(store).jobs@.update(
                    spec_job_index(old(store).jobs@, id@),
                    final(store).jobs@[spec_job_index(old(store).jobs@, id@)],
                )
                &&& Store::spec_status_change(
                    old(store).jobs@[spec_job_index(old(store).jobs@, id@)],
                    final(store).jobs@[spec_job_index(old(store).jobs@, id@)],
                    status,
                    exit_code,
                    match error_message {
                        Some(m) => Some(m@),
                        None => None,
                    },
                    now,
                )
            },
            !(spec_has_job(old(store).jobs@, id@) && old(store).jobs@[spec_job_index(
                old(store).jobs@,
                id@,
            )].status.spec_can_transition(status)) ==> *final(store) == *old(store),
    {
        let updated = store.update_job_status(id, status, exit_code, error_message, now)
            .is_ok();
        proof {
            if updated {
                let idx = spec_job_index(old(store).jobs@, id@);
                lemma_count_running_update(old(store).jobs@, idx, store.jobs@[idx]);
            }
            lemma_count_running_nonneg(store.jobs@);
        }
        let ghost mid_self = *self;
        self.remove_entry(id);
        if release {
            self.permits_in_use = self.permits_in_use - 1;
        }
        proof {
            assert forall|i: int| 0 <= i < self.active@.len() implies {
                let e = #[trigger] self.active@[i];
                spec_has_job(store.jobs@, e.job_id@) ==> {
                    let j = store.jobs@[spec_job_index(store.jobs@, e.job_id@)];
                    !j.status.spec_is_terminal() && j.status == e.status
                }
            } by {
                let e = self.active@[i];
                crate::store::lemma_filter_subset(mid_self.active@,
                    |x: ActiveJob| x.job_id@ != id@);
                mid_self.active@.lemma_filter_pred(|x: ActiveJob| x.job_id@ != id@, i);
                let m = choose|m: int|
                    0 <= m < mid_self.active@.len() && mid_self.active@[m] == self.active@[i];
                if spec_has_job(store.jobs@, e.job_id@) {
                    if updated {
                        let idx = spec_job_index(old(store).jobs@, id@);
                        crate::store::lemma_job_update_lookup(old(store).jobs@, store.jobs@,
                            idx, e.job_id@);
                    }
                }
            }
        }
        JobStatusChangedPayload {
            job_id: id.clone(),
            status: str_of(status.as_str()),
            exit_code,
        }
    }
}

/// Relies on uuid::Uuid::new_v4: a freshly generated id rendered in its
/// hyphenated form. The value depends on randomness, so nothing is assumed
/// of it beyond its shape.
#[verifier::external_body]
fn new_job_id() -> (r: String)
    ensures
        r@.len() == 36,
{
    uuid::Uuid::new_v4().to_string()
}

/// Relies on chrono::Utc::now: the current time in seconds since the
/// epoch. The value depends on the clock, so only a coarse range is
/// assumed.
#[verifier::external_body]
pub fn now_seconds() -> (r: i64)
    ensures
        0 <= r <= 4_000_000_000_000,
{
    chrono::Utc::now().timestamp().clamp(0, 4_000_000_000_000)
}

/// Relies on chrono::Utc::now: the current time in milliseconds since the
/// epoch, within the range the stream processor accepts.
#[verifier::external_body]
pub fn now_millis() -> (r: i64)
    ensures
        0 <= r <= crate::stream::MS_CLOCK_LIMIT,
{
    chrono::Utc::now().timestamp_millis().clamp(0, crate::stream::MS_CLOCK_LIMIT)
}

/// How many live (queued or running) rows name this entity and kind.
pub open spec fn spec_count_active(jobs: Seq<Job>, entity_id: i64, kind: Seq<char>) -> int
    decreases jobs.len(),
{
    if jobs.len() == 0 {
        0
    } else {
        spec_count_active(jobs.drop_last(), entity_id, kind) + (
        if crate::store::spec_active_match(jobs.last(), entity_id, kind) {
            1int
        } else {
            0
        })
    }
}

pub proof fn lemma_count_active_push(jobs: Seq<Job>, j: Job, entity_id: i64, kind: Seq<char>)
    ensures
        spec_count_active(jobs.push(j), entity_id, kind) == spec_count_active(
            jobs,
            entity_id,
            kind,
        ) + (if crate::store::spec_active_match(j, entity_id, kind) {
            1int
        } else {
            0
        }),
{
    assert(jobs.push(j).drop_last() =~= jobs);
    assert(jobs.push(j).last() == j);
}

pub proof fn lemma_count_active_update(jobs: Seq<Job>, i: int, v: Job, entity_id: i64,
    kind: Seq<char>)
    requires
        0 <= i < jobs.len(),
    ensures
        spec_count_active(jobs.update(i, v), entity_id, kind) == spec_count_active(
            jobs,
            entity_id,
            kind,
        ) + (if crate::store::spec_active_match(v, entity_id, kind) {
            1int
        } else {
            0
        }) - (if crate::store::spec_active_match(jobs[i], entity_id, kind) {
            1int
        } else {
            0
        }),
    decreases jobs.len(),
{
    let u = jobs.update(i, v);
    if i == jobs.len() - 1 {
        assert(u.drop_last() =~= jobs.drop_last());
        assert(u.last() == v);
    } else {
        assert(u.drop_last() =~= jobs.drop_last().update(i, v));
        assert(u.last() == jobs.last());
        lemma_count_active_update(jobs.drop_last(), i, v, entity_id, kind);
    }
}

impl JobQueue {
    /// The admission path: a fresh id is generated, the row is durably
    /// recorded as queued, the registry learns the id, and the id and the
    /// admission event are handed back. Deduplication is the caller's
    /// protocol: one more live job for the entity appears, never more.
    pub fn submit(&mut self, store: &mut Store, metadata: &JobMetadata, entity_label: &str,
        prompt: &str, working_dir: &str) -> (r: Result<(String, JobCreatedPayload), StoreError>)
        requires
            spec_scheduler_inv(*old(self), *old(store)),
            spec_registry_live(*old(self), *old(store)),
        ensures
            spec_scheduler_inv(*final(self), *final(store)),
            spec_registry_live(*final(self), *final(store)),
            final(self).permits_in_use == old(self).permits_in_use,
            crate::store::same_but_jobs(*old(store), *final(store)),
            match r {
                Ok((id, ev)) => {
                    &&& !spec_has_job(old(store).jobs@, id@)
                    &&& final(store).jobs@ == old(store).jobs@.push(final(store).jobs@.last())
                    &&& final(store).jobs@.last().id@ == id@
                    &&& final(store).jobs@.last().status == JobStatus::Queued
                    &&& final(store).jobs@.last().job_type@ == metadata.job_type.spec_str()
                    &&& final(store).jobs@.last().entity_id == metadata.entity_id
                    &&& ev.job_id@ == id@
                    &&& spec_count_active(
                        final(store).jobs@,
                        metadata.entity_id,
                        metadata.job_type.spec_str(),
                    ) == spec_count_active(
                        old(store).jobs@,
                        metadata.entity_id,
                        metadata.job_type.spec_str(),
                    ) + 1
                    &&& forall|e: i64, k: Seq<char>|
                        e != metadata.entity_id || k != metadata.job_type.spec_str()
                            ==> #[trigger] spec_count_active(final(store).jobs@, e, k)
                            == spec_count_active(old(store).jobs@, e, k)
                },
                Err(_) => *final(store) == *old(store) && *final(self) == *old(self),
            },
    {
        let id = new_job_id();
        let now = now_seconds();
        if self.find_entry_index(&id).is_some() {
            return Err(StoreError::Constraint);
        }
        let ev = match self.admit_job(store, &id, metadata, entity_label, prompt, working_dir,
            now) {
            Ok(ev) => ev,
            Err(e) => {
                return Err(e);
            },
        };
        proof {
            let kind = metadata.job_type.spec_str();
            lemma_count_active_push(old(store).jobs@, store.jobs@.last(), metadata.entity_id,
                kind);
            assert forall|e: i64, k: Seq<char>|
                e != metadata.entity_id || k != kind implies #[trigger] spec_count_active(
                store.jobs@, e, k) == spec_count_active(old(store).jobs@, e, k) by {
                lemma_count_active_push(old(store).jobs@, store.jobs@.last(), e, k);
            }
        }
        Ok((id, ev))
    }

    /// Resolves the wait for a permit: an acquired permit moves the job to
    /// `running`; the queue timer or a cancel signal before a permit ends
    /// the job with the matching status and message and puts the entity
    /// back. Returns the status event and the entity events.
    pub fn handle_queue_wait(&mut self, store: &mut Store, id: &String,
        entity_context: &Option<EntityContext>, outcome: QueueWaitOutcome, now: i64)
        -> (r: (Option<JobStatusChangedPayload>, Vec<AppEvent>))
        requires
            spec_scheduler_inv(*old(self), *old(store)),
            spec_registry_live(*old(self), *old(store)),
            outcome == QueueWaitOutcome::PermitAcquired ==> old(self).permits_in_use
                < MAX_CONCURRENT_JOBS,
        ensures
            spec_scheduler_inv(*final(self), *final(store)),
            spec_registry_live(*final(self), *final(store)),
            same_but_jobs_and_entities(*old(store), *final(store)),
            match outcome {
                QueueWaitOutcome::PermitAcquired => {
                    &&& final(self).permits_in_use == old(self).permits_in_use + 1
                    &&& final(store).leads == old(store).leads
                    &&& final(store).people == old(store).people
                    &&& r.1@.len() == 0
                    &&& (if spec_has_job(old(store).jobs@, id@) && old(store).jobs@[
                        spec_job_index(old(store).jobs@, id@)].status
                        .spec_can_transition(JobStatus::Running) {
                        &&& final(store).jobs@ == old(store).jobs@.update(
                            spec_job_index(old(store).jobs@, id@),
                            final(store).jobs@[spec_job_index(old(store).jobs@, id@)],
                        )
                        &&& Store::spec_status_change(
                            old(store).jobs@[spec_job_index(old(store).jobs@, id@)],
                            final(store).jobs@[spec_job_index(old(store).jobs@, id@)],
                            JobStatus::Running,
                            None,
                            None,
                            now,
                        )
                        &&& (r.0 matches Some(ev) && ev.status@ == "running"@
                            && ev.job_id@ == id@ && ev.exit_code is None)
                    } else {
                        final(store).jobs == old(store).jobs && r.0 is None
                    })
                },
                QueueWaitOutcome::QueueTimeout | QueueWaitOutcome::Cancelled => {
                    let ended = if outcome == QueueWaitOutcome::QueueTimeout {
                        JobStatus::Error
                    } else {
                        JobStatus::Cancelled
                    };
                    let message = if outcome == QueueWaitOutcome::QueueTimeout {
                        "Queue timeout - server busy"@
                    } else {
                        "Cancelled while queued"@
                    };
                    &&& final(self).permits_in_use == old(self).permits_in_use
                    &&& final(self).active@ == old(self).active@.filter(
                        |e: ActiveJob| e.job_id@ != id@,
                    )
                    &&& spec_job_ended(*old(store), *final(store), id@, ended, None, message,
                        now)
                    &&& (r.0 matches Some(ev) && ev.job_id@ == id@ && ev.status@
                        == ended.spec_str() && ev.exit_code is None)
                    &&& match *entity_context {
                        Some(ctx) => spec_entity_reset(*old(store), *final(store), ctx)
                            && spec_reset_events(r.1@, *old(store), *final(store), ctx),
                        None => final(store).leads == old(store).leads
                            && final(store).people == old(store).people && r.1@.len() == 0,
                    }
                },
            },
    {
        match outcome {
            QueueWaitOutcome::PermitAcquired => {
                self.acquire_permit();
                match self.begin_running(store, id, now) {
                    Ok(ev) => (Some(ev), Vec::new()),
                    Err(_) => (None, Vec::new()),
                }
            },
            QueueWaitOutcome::QueueTimeout => {
                let mut events: Vec<AppEvent> = Vec::new();
                if let Some(ctx) = entity_context {
                    let mut es = reset_entity(store, ctx);
                    events.append(&mut es);
                }
                let ghost mid = *store;
                let ev = self.finish_job(store, id, JobStatus::Error, None, Some(
                    "Queue timeout - server busy",
                ), false, now);
                proof {
                    assert(mid.jobs == old(store).jobs);
                    assert(spec_job_ended(*old(store), *store, id@, JobStatus::Error, None,
                        "Queue timeout - server busy"@, now));
                }
                (Some(ev), events)
            },
            QueueWaitOutcome::Cancelled => {
                let mut events: Vec<AppEvent> = Vec::new();
                if let Some(ctx) = entity_context {
                    let mut es = reset_entity(store, ctx);
                    events.append(&mut es);
                }
                let ghost mid = *store;
                let ev = self.finish_job(store, id, JobStatus::Cancelled, None, Some(
                    "Cancelled while queued",
                ), false, now);
                proof {
                    assert(mid.jobs == old(store).jobs);
                    assert(spec_job_ended(*old(store), *store, id@, JobStatus::Cancelled,
                        None, "Cancelled while queued"@, now));
                }
                (Some(ev), events)
            },
        }
    }
}

/// The scope token the supervising task holds: unless it is defused on the
/// normal exit path, its cleanup puts the registry, the entity and the job
/// row back in order.
#[derive(Debug)]
pub struct JobGuard {
    pub job_id: String,
    pub entity_context: Option<EntityContext>,
    pub defused: bool,
}

impl JobGuard {
    pub fn new(job_id: &str, entity_context: Option<EntityContext>) -> (r: JobGuard)
        ensures
            r.job_id@ == job_id@,
            r.entity_context == entity_context,
            !r.defused,
    {
        JobGuard { job_id: str_of(job_id), entity_context, defused: false }
    }

    /// Disarms the guard; the normal exit path has already cleaned up.
    pub fn defuse(&mut self)
        ensures
            *final(self) == (JobGuard { defused: true, ..*old(self) }),
    {
        self.defused = true;
    }

    /// The abnormal-exit backstop: forgets the registry entry, puts the
    /// entity back, and records the job as failed with the standing
    /// message. A job already terminal is left alone. The returned events
    /// are the entity's reset announcements followed by the status event.
    pub fn cleanup(&self, queue: &mut JobQueue, store: &mut Store, now: i64)
        -> (r: Vec<AppEvent>)
        requires
            !self.defused,
            spec_scheduler_inv(*old(queue), *old(store)),
            spec_registry_live(*old(queue), *old(store)),
        ensures
            spec_scheduler_inv(*final(queue), *final(store)),
            spec_registry_live(*final(queue), *final(store)),
            same_but_jobs_and_entities(*old(store), *final(store)),
            final(queue).permits_in_use == old(queue).permits_in_use,
            final(queue).active@ == old(queue).active@.filter(
                |e: ActiveJob| e.job_id@ != self.job_id@,
            ),
            spec_job_ended(*old(store), *final(store), self.job_id@, JobStatus::Error, None,
                "Job aborted unexpectedly"@, now),
            match self.entity_context {
                Some(ctx) => spec_entity_reset(*old(store), *final(store), ctx)
                    && spec_reset_events(r@.drop_last(), *old(store), *final(store), ctx)
                    && r@.len() >= 1,
                None => final(store).leads == old(store).leads && final(store).people
                    == old(store).people && r@.len() == 1,
            },
            (r@.last() matches AppEvent::JobStatusChanged(p) && p.job_id@ == self.job_id@
                && p.status@ == "error"@ && p.exit_code is None),
    {
        let mut events: Vec<AppEvent> = Vec::new();
        if let Some(ctx) = &self.entity_context {
            let mut es = reset_entity(store, ctx);
            events.append(&mut es);
        }
        let ghost mid = *store;
        let ghost reset_events = events@;
        let ev = queue.finish_job(store, &self.job_id, JobStatus::Error, None, Some(
            "Job aborted unexpectedly",
        ), false, now);
        proof {
            assert(mid.jobs == old(store).jobs);
            assert(spec_job_ended(*old(store), *store, self.job_id@, JobStatus::Error, None,
                "Job aborted unexpectedly"@, now));
        }
        events.push(AppEvent::JobStatusChanged(ev));
        proof {
            assert(events@.drop_last() =~= reset_events);
        }
        events
    }
}

} // verus!
