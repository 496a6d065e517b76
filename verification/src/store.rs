use vstd::prelude::*;
use vstd::string::StringExecFns;
use crate::schema::{CompanyProfile, Job, JobLog, JobStatus, Lead, NewJob, NewLead, NewPerson,
    Person, Prompt, ResearchStatus, ScoringConfig, LeadScore, Settings, clone_opt_string};
use crate::enrichment::{LeadEnrichment, ParsedPersonData, PersonEnrichment, coalesce_i64,
    coalesce_string, spec_coalesce};

verus! {

/// Why a store operation was refused. The store refuses rather than panics:
/// a missing row, a broken uniqueness or allocation constraint, or a status
/// change the job state machine does not allow.
#[derive(Debug, Clone, Copy, PartialEq, Eq, Structural)]
pub enum StoreError {
    NotFound,
    Constraint,
    InvalidTransition,
}

/// The log rows of one job, in sequence order.
#[derive(Debug)]
pub struct JobLogGroup {
    pub job_id: String,
    pub entries: Vec<JobLog>,
}

/// The durable record of jobs, their log lines, and the domain entities
/// jobs mutate. This is the single-writer relational model the scheduler
/// reads and writes; the contracts below are the record-keeping rules.
#[derive(Debug)]
pub struct Store {
    pub jobs: Vec<Job>,
    pub logs: Vec<JobLogGroup>,
    pub leads: Vec<Lead>,
    pub people: Vec<Person>,
    pub prompts: Vec<Prompt>,
    pub scoring_configs: Vec<ScoringConfig>,
    pub lead_scores: Vec<LeadScore>,
    pub company_profile: Option<CompanyProfile>,
    pub settings: Settings,
    pub next_log_id: i64,
    pub next_lead_id: i64,
    pub next_person_id: i64,
    pub next_prompt_id: i64,
    pub next_config_id: i64,
    pub next_score_id: i64,
}

pub open spec fn spec_max_i64(a: i64, b: i64) -> i64 {
    if a >= b {
        a
    } else {
        b
    }
}

/// Whether some row in `jobs` carries this id.
pub open spec fn spec_has_job(jobs: Seq<Job>, id: Seq<char>) -> bool {
    exists|i: int| 0 <= i < jobs.len() && jobs[i].id@ == id
}

/// The row index of the job with this id (unique in a well-formed store).
pub open spec fn spec_job_index(jobs: Seq<Job>, id: Seq<char>) -> int {
    choose|i: int| 0 <= i < jobs.len() && jobs[i].id@ == id
}

pub open spec fn spec_job_at(jobs: Seq<Job>, id: Seq<char>) -> Job {
    jobs[spec_job_index(jobs, id)]
}

pub open spec fn jobs_wf(jobs: Seq<Job>) -> bool {
    &&& forall|i: int, j: int|
        #![trigger jobs[i].id, jobs[j].id]
        0 <= i < j < jobs.len() ==> jobs[i].id@ != jobs[j].id@
    &&& forall|i: int| 0 <= i < jobs.len() ==> (#[trigger] jobs[i]).wf()
}

pub open spec fn group_wf(g: JobLogGroup) -> bool {
    &&& g.entries@.len() <= 0x7fff_ffff_ffff_ffffu64
    &&& forall|k: int|
        0 <= k < g.entries@.len() ==> (#[trigger] g.entries@[k]).sequence == k
            && g.entries@[k].job_id@ == g.job_id@
}

pub open spec fn logs_wf(logs: Seq<JobLogGroup>) -> bool {
    &&& forall|i: int, j: int|
        #![trigger logs[i].job_id, logs[j].job_id]
        0 <= i < j < logs.len() ==> logs[i].job_id@ != logs[j].job_id@
    &&& forall|i: int| 0 <= i < logs.len() ==> group_wf(#[trigger] logs[i])
}

pub open spec fn spec_has_group(logs: Seq<JobLogGroup>, id: Seq<char>) -> bool {
    exists|i: int| 0 <= i < logs.len() && logs[i].job_id@ == id
}

pub open spec fn spec_group_index(logs: Seq<JobLogGroup>, id: Seq<char>) -> int {
    choose|i: int| 0 <= i < logs.len() && logs[i].job_id@ == id
}

/// The persisted log lines of a job, in sequence order; empty when none
/// were ever flushed.
pub open spec fn spec_job_log_seq(logs: Seq<JobLogGroup>, id: Seq<char>) -> Seq<JobLog> {
    if spec_has_group(logs, id) {
        logs[spec_group_index(logs, id)].entries@
    } else {
        Seq::empty()
    }
}

pub open spec fn leads_wf(leads: Seq<Lead>, next_id: i64) -> bool {
    &&& forall|i: int, j: int|
        #![trigger leads[i].id, leads[j].id]
        0 <= i < j < leads.len() ==> leads[i].id != leads[j].id
    &&& forall|i: int| 0 <= i < leads.len() ==> (#[trigger] leads[i]).id < next_id
    &&& 1 <= next_id
}

pub open spec fn people_wf(people: Seq<Person>, next_id: i64) -> bool {
    &&& forall|i: int, j: int|
        #![trigger people[i].id, people[j].id]
        0 <= i < j < people.len() ==> people[i].id != people[j].id
    &&& forall|i: int| 0 <= i < people.len() ==> (#[trigger] people[i]).id < next_id
    &&& 1 <= next_id
}

pub open spec fn prompts_wf(prompts: Seq<Prompt>, next_id: i64) -> bool {
    &&& forall|i: int, j: int|
        #![trigger prompts[i].id, prompts[j].id]
        0 <= i < j < prompts.len() ==> prompts[i].id != prompts[j].id
    &&& forall|i: int| 0 <= i < prompts.len() ==> (#[trigger] prompts[i]).id < next_id
    &&& 1 <= next_id
}

pub open spec fn configs_wf(configs: Seq<ScoringConfig>, next_id: i64) -> bool {
    &&& forall|i: int, j: int|
        #![trigger configs[i].id, configs[j].id]
        0 <= i < j < configs.len() ==> configs[i].id != configs[j].id
    &&& forall|i: int| 0 <= i < configs.len() ==> (#[trigger] configs[i]).id < next_id
    &&& 1 <= next_id
}

/// Each lead has at most one score row.
pub open spec fn scores_wf(scores: Seq<LeadScore>, next_id: i64) -> bool {
    &&& forall|i: int, j: int|
        #![trigger scores[i].lead_id, scores[j].lead_id]
        0 <= i < j < scores.len() ==> scores[i].lead_id != scores[j].lead_id
    &&& forall|i: int| 0 <= i < scores.len() ==> (#[trigger] scores[i]).id < next_id
    &&& 1 <= next_id
}

impl Store {
    /// The store invariant: every table keys its rows uniquely, identifiers
    /// stay below their allocator, each job row satisfies the status and
    /// timestamp rules, and each job's log sequences are contiguous from 0.
    pub open spec fn wf(self) -> bool {
        &&& jobs_wf(self.jobs@)
        &&& logs_wf(self.logs@)
        &&& leads_wf(self.leads@, self.next_lead_id)
        &&& people_wf(self.people@, self.next_person_id)
        &&& prompts_wf(self.prompts@, self.next_prompt_id)
        &&& configs_wf(self.scoring_configs@, self.next_config_id)
        &&& scores_wf(self.lead_scores@, self.next_score_id)
        &&& 1 <= self.next_log_id
    }

    /// An empty store with the default settings.
    pub fn new(now: i64) -> (r: Store)
        ensures
            r.wf(),
            r.jobs@.len() == 0,
            r.logs@.len() == 0,
            r.leads@.len() == 0,
            r.people@.len() == 0,
            r.prompts@.len() == 0,
            r.scoring_configs@.len() == 0,
            r.lead_scores@.len() == 0,
            r.company_profile is None,
            r.settings.model@ == "sonnet"@,
            !r.settings.use_chrome,
            r.settings.use_gateway,
    {
        Store {
            jobs: Vec::new(),
            logs: Vec::new(),
            leads: Vec::new(),
            people: Vec::new(),
            prompts: Vec::new(),
            scoring_configs: Vec::new(),
            lead_scores: Vec::new(),
            company_profile: None,
            settings: Settings {
                model: String::from_str("sonnet"),
                use_chrome: false,
                use_gateway: true,
                theme: String::from_str("dark"),
                updated_at: now,
            },
            next_log_id: 1,
            next_lead_id: 1,
            next_person_id: 1,
            next_prompt_id: 1,
            next_config_id: 1,
            next_score_id: 1,
        }
    }

    fn find_job_index(&self, id: &String) -> (r: Option<usize>)
        ensures
            match r {
                Some(i) => i < self.jobs@.len() && self.jobs@[i as int].id@ == id@,
                None => !spec_has_job(self.jobs@, id@),
            },
    {
        let mut i: usize = 0;
        while i < self.jobs.len()
            invariant
                i <= self.jobs@.len(),
                forall|k: int| 0 <= k < i ==> self.jobs@[k].id@ != id@,
            decreases self.jobs@.len() - i,
        {
            if self.jobs[i].id == *id {
                return Some(i);
            }
            i += 1;
        }
        None
    }

    /// In a well-formed store, an index holding the id is the unique index
    /// the specification functions speak of.
    pub proof fn lemma_job_index_unique(self, i: int, id: Seq<char>)
        requires
            jobs_wf(self.jobs@),
            0 <= i < self.jobs@.len(),
            self.jobs@[i].id@ == id,
        ensures
            spec_has_job(self.jobs@, id),
            spec_job_index(self.jobs@, id) == i,
    {
        assert(spec_has_job(self.jobs@, id));
        let j = spec_job_index(self.jobs@, id);
        if i < j {
            assert(self.jobs@[i].id@ != self.jobs@[j].id@);
        } else if j < i {
            assert(self.jobs@[j].id@ != self.jobs@[i].id@);
        }
    }

    /// Records a submitted job. The row enters with status `queued`,
    /// creation time `now`, and no other timestamps; a second row with the
    /// same id is refused.
    pub fn insert_job(&mut self, job: &NewJob, now: i64) -> (r: Result<(), StoreError>)
        requires
            old(self).wf(),
        ensures
            final(self).wf(),
            same_but_jobs(*old(self), *final(self)),
            match r {
                Ok(()) => {
                    &&& !spec_has_job(old(self).jobs@, job.id@)
                    &&& final(self).jobs@.len() == old(self).jobs@.len() + 1
                    &&& final(self).jobs@ == old(self).jobs@.push(final(self).jobs@.last())
                    &&& {
                        let j = final(self).jobs@.last();
                        &&& j.id@ == job.id@
                        &&& j.job_type@ == job.job_type@
                        &&& j.entity_id == job.entity_id
                        &&& j.entity_label@ == job.entity_label@
                        &&& j.status == JobStatus::Queued
                        &&& j.prompt@ == job.prompt@
                        &&& j.model == job.model
                        &&& j.working_dir@ == job.working_dir@
                        &&& j.output_path == job.output_path
                        &&& j.exit_code is None
                        &&& j.error_message is None
                        &&& j.created_at == now
                        &&& j.started_at is None
                        &&& j.completed_at is None
                        &&& j.pid is None
                        &&& j.completion_state is None
                        &&& j.last_event_index == 0
                        &&& !j.stdout_truncated
                        &&& !j.stderr_truncated
                        &&& j.total_stdout_bytes == 0
                        &&& j.total_stderr_bytes == 0
                    }
                },
                Err(e) => {
                    &&& e == StoreError::Constraint
                    &&& spec_has_job(old(self).jobs@, job.id@)
                    &&& *final(self) == *old(self)
                },
            },
    {
        match self.find_job_index(&job.id) {
            Some(i) => {
                proof {
                    self.lemma_job_index_unique(i as int, job.id@);
                }
                Err(StoreError::Constraint)
            },
            None => {
                let row = Job {
                    id: job.id.clone(),
                    job_type: job.job_type.clone(),
                    entity_id: job.entity_id,
                    entity_label: job.entity_label.clone(),
                    status: JobStatus::Queued,
                    prompt: job.prompt.clone(),
                    model: clone_opt_string(&job.model),
                    working_dir: job.working_dir.clone(),
                    output_path: clone_opt_string(&job.output_path),
                    exit_code: None,
                    error_message: None,
                    created_at: now,
                    started_at: None,
                    completed_at: None,
                    pid: None,
                    ai_session_id: None,
                    ai_model: None,
                    last_event_index: 0,
                    stdout_truncated: false,
                    stderr_truncated: false,
                    total_stdout_bytes: 0,
                    total_stderr_bytes: 0,
                    completion_state: None,
                };
                self.jobs.push(row);
                Ok(())
            },
        }
    }

    /// What a status change writes to the row: the status itself; the start
    /// time exactly on entering `running`; and, on entering a terminal
    /// status, the exit code, the error message and the completion time.
    /// Timestamps never run backwards, so a late clock is clamped.
    pub open spec fn spec_status_change(oldj: Job, newj: Job, status: JobStatus,
        exit_code: Option<i32>, error_message: Option<Seq<char>>, now: i64) -> bool {
        if status == JobStatus::Running {
            newj == Job {
                status,
                started_at: Some(spec_max_i64(oldj.created_at, now)),
                ..oldj
            }
        } else {
            &&& newj.status == status
            &&& newj.exit_code == exit_code
            &&& match (newj.error_message, error_message) {
                (Some(a), Some(b)) => a@ == b,
                (None, None) => true,
                _ => false,
            }
            &&& newj.completed_at == Some(
                spec_max_i64(
                    match oldj.started_at {
                        Some(s) => s,
                        None => oldj.created_at,
                    },
                    now,
                ),
            )
            &&& newj.id == oldj.id
            &&& newj.job_type == oldj.job_type
            &&& newj.entity_id == oldj.entity_id
            &&& newj.entity_label == oldj.entity_label
            &&& newj.prompt == oldj.prompt
            &&& newj.model == oldj.model
            &&& newj.working_dir == oldj.working_dir
            &&& newj.output_path == oldj.output_path
            &&& newj.created_at == oldj.created_at
            &&& newj.started_at == oldj.started_at
            &&& newj.pid == oldj.pid
            &&& newj.ai_session_id == oldj.ai_session_id
            &&& newj.ai_model == oldj.ai_model
            &&& newj.last_event_index == oldj.last_event_index
            &&& newj.stdout_truncated == oldj.stdout_truncated
            &&& newj.stderr_truncated == oldj.stderr_truncated
            &&& newj.total_stdout_bytes == oldj.total_stdout_bytes
            &&& newj.total_stderr_bytes == oldj.total_stderr_bytes
            &&& newj.completion_state == oldj.completion_state
        }
    }

    /// Moves the job with this id along the status state machine and
    /// maintains the timestamp rules. A transition the state machine does
    /// not allow leaves the store unchanged.
    pub fn update_job_status(&mut self, id: &String, status: JobStatus, exit_code: Option<i32>,
        error_message: Option<&str>, now: i64) -> (r: Result<(), StoreError>)
        requires
            old(self).wf(),
        ensures
            final(self).wf(),
            same_but_jobs(*old(self), *final(self)),
            match r {
                Ok(()) => {
                    &&& spec_has_job(old(self).jobs@, id@)
                    &&& old(self).jobs@[spec_job_index(old(self).jobs@, id@)]
                        .status.spec_can_transition(status)
                    &&& final(self).jobs@ == old(self).jobs@.update(
                        spec_job_index(old(self).jobs@, id@),
                        final(self).jobs@[spec_job_index(old(self).jobs@, id@)],
                    )
                    &&& Self::spec_status_change(
                        old(self).jobs@[spec_job_index(old(self).jobs@, id@)],
                        final(self).jobs@[spec_job_index(old(self).jobs@, id@)],
                        status,
                        exit_code,
                        match error_message {
                            Some(m) => Some(m@),
                            None => None,
                        },
                        now,
                    )
                },
                Err(StoreError::NotFound) => {
                    &&& !spec_has_job(old(self).jobs@, id@)
                    &&& *final(self) == *old(self)
                },
                Err(StoreError::InvalidTransition) => {
                    &&& spec_has_job(old(self).jobs@, id@)
                    &&& !old(self).jobs@[spec_job_index(old(self).jobs@, id@)]
                        .status.spec_can_transition(status)
                    &&& *final(self) == *old(self)
                },
                Err(StoreError::Constraint) => false,
            },
    {
        let i = match self.find_job_index(id) {
            Some(i) => i,
            None => {
                return Err(StoreError::NotFound);
            },
        };
        proof {
            self.lemma_job_index_unique(i as int, id@);
        }
        let current = self.jobs[i].status;
        if !current.can_transition(status) {
            return Err(StoreError::InvalidTransition);
        }
        if matches!(status, JobStatus::Running) {
            let started: i64 = if self.jobs[i].created_at >= now {
                self.jobs[i].created_at
            } else {
                now
            };
            self.jobs[i].status = status;
            self.jobs[i].started_at = Some(started);
        } else {
            let base: i64 = match self.jobs[i].started_at {
                Some(s) => s,
                None => self.jobs[i].created_at,
            };
            let done: i64 = if base >= now {
                base
            } else {
                now
            };
            self.jobs[i].status = status;
            self.jobs[i].exit_code = exit_code;
            self.jobs[i].error_message = match error_message {
                Some(m) => Some(str_of(m)),
                None => None,
            };
            self.jobs[i].completed_at = Some(done);
        }
        proof {
            assert(final(self).jobs@ == old(self).jobs@.update(i as int,
                final(self).jobs@[i as int]));
        }
        Ok(())
    }

    /// Records the child's process id for the job.
    pub fn update_job_pid(&mut self, id: &String, pid: i64) -> (r: Result<(), StoreError>)
        requires
            old(self).wf(),
        ensures
            final(self).wf(),
            same_but_jobs(*old(self), *final(self)),
            match r {
                Ok(()) => {
                    &&& spec_has_job(old(self).jobs@, id@)
                    &&& final(self).jobs@ == old(self).jobs@.update(
                        spec_job_index(old(self).jobs@, id@),
                        Job { pid: Some(pid), ..old(self).jobs@[spec_job_index(old(self).jobs@, id@)] },
                    )
                },
                Err(e) => {
                    &&& e == StoreError::NotFound
                    &&& !spec_has_job(old(self).jobs@, id@)
                    &&& *final(self) == *old(self)
                },
            },
    {
        let i = match self.find_job_index(id) {
            Some(i) => i,
            None => {
                return Err(StoreError::NotFound);
            },
        };
        proof {
            self.lemma_job_index_unique(i as int, id@);
        }
        self.jobs[i].pid = Some(pid);
        proof {
            assert(final(self).jobs@ == old(self).jobs@.update(i as int,
                final(self).jobs@[i as int]));
        }
        Ok(())
    }

    /// The fields a session announcement updates and nothing else.
    pub open spec fn spec_session_change(oldj: Job, newj: Job, session_id: Seq<char>,
        model: Seq<char>) -> bool {
        &&& newj.ai_session_id matches Some(s) && s@ == session_id
        &&& newj.ai_model matches Some(m) && m@ == model
        &&& newj == Job { ai_session_id: newj.ai_session_id, ai_model: newj.ai_model, ..oldj }
    }

    /// Records the session id and model the worker announced on its stream.
    pub fn update_job_ai_session(&mut self, id: &String, session_id: &str, model: &str)
        -> (r: Result<(), StoreError>)
        requires
            old(self).wf(),
        ensures
            final(self).wf(),
            same_but_jobs(*old(self), *final(self)),
            match r {
                Ok(()) => {
                    &&& spec_has_job(old(self).jobs@, id@)
                    &&& final(self).jobs@ == old(self).jobs@.update(
                        spec_job_index(old(self).jobs@, id@),
                        final(self).jobs@[spec_job_index(old(self).jobs@, id@)],
                    )
                    &&& Self::spec_session_change(
                        old(self).jobs@[spec_job_index(old(self).jobs@, id@)],
                        final(self).jobs@[spec_job_index(old(self).jobs@, id@)],
                        session_id@,
                        model@,
                    )
                },
                Err(e) => {
                    &&& e == StoreError::NotFound
                    &&& !spec_has_job(old(self).jobs@, id@)
                    &&& *final(self) == *old(self)
                },
            },
    {
        let i = match self.find_job_index(id) {
            Some(i) => i,
            None => {
                return Err(StoreError::NotFound);
            },
        };
        proof {
            self.lemma_job_index_unique(i as int, id@);
        }
        self.jobs[i].ai_session_id = Some(str_of(session_id));
        self.jobs[i].ai_model = Some(str_of(model));
        proof {
            assert(final(self).jobs@ == old(self).jobs@.update(i as int,
                final(self).jobs@[i as int]));
        }
        Ok(())
    }

    /// Persists the final byte counters and truncation flags of both streams.
    pub fn update_job_stream_stats(&mut self, id: &String, stdout_truncated: bool,
        stderr_truncated: bool, total_stdout_bytes: i64, total_stderr_bytes: i64)
        -> (r: Result<(), StoreError>)
        requires
            old(self).wf(),
        ensures
            final(self).wf(),
            same_but_jobs(*old(self), *final(self)),
            match r {
                Ok(()) => {
                    &&& spec_has_job(old(self).jobs@, id@)
                    &&& final(self).jobs@ == old(self).jobs@.update(
                        spec_job_index(old(self).jobs@, id@),
                        Job {
                            stdout_truncated,
                            stderr_truncated,
                            total_stdout_bytes,
                            total_stderr_bytes,
                            ..old(self).jobs@[spec_job_index(old(self).jobs@, id@)]
                        },
                    )
                },
                Err(e) => {
                    &&& e == StoreError::NotFound
                    &&& !spec_has_job(old(self).jobs@, id@)
                    &&& *final(self) == *old(self)
                },
            },
    {
        let i = match self.find_job_index(id) {
            Some(i) => i,
            None => {
                return Err(StoreError::NotFound);
            },
        };
        proof {
            self.lemma_job_index_unique(i as int, id@);
        }
        self.jobs[i].stdout_truncated = stdout_truncated;
        self.jobs[i].stderr_truncated = stderr_truncated;
        self.jobs[i].total_stdout_bytes = total_stdout_bytes;
        self.jobs[i].total_stderr_bytes = total_stderr_bytes;
        proof {
            assert(final(self).jobs@ == old(self).jobs@.update(i as int,
                final(self).jobs@[i as int]));
        }
        Ok(())
    }

    /// The fields a completion-state checkpoint updates and nothing else.
    pub open spec fn spec_completion_state_change(oldj: Job, newj: Job,
        state: Option<Seq<char>>) -> bool {
        &&& match (newj.completion_state, state) {
            (Some(a), Some(b)) => a@ == b,
            (None, None) => true,
            _ => false,
        }
        &&& newj == Job { completion_state: newj.completion_state, ..oldj }
    }

    /// Records how far the completion handler has advanced for the job.
    pub fn update_job_completion_state(&mut self, id: &String, state: Option<&str>)
        -> (r: Result<(), StoreError>)
        requires
            old(self).wf(),
        ensures
            final(self).wf(),
            same_but_jobs(*old(self), *final(self)),
            match r {
                Ok(()) => {
                    &&& spec_has_job(old(self).jobs@, id@)
                    &&& final(self).jobs@ == old(self).jobs@.update(
                        spec_job_index(old(self).jobs@, id@),
                        final(self).jobs@[spec_job_index(old(self).jobs@, id@)],
                    )
                    &&& Self::spec_completion_state_change(
                        old(self).jobs@[spec_job_index(old(self).jobs@, id@)],
                        final(self).jobs@[spec_job_index(old(self).jobs@, id@)],
                        match state {
                            Some(s) => Some(s@),
                            None => None,
                        },
                    )
                },
                Err(e) => {
                    &&& e == StoreError::NotFound
                    &&& !spec_has_job(old(self).jobs@, id@)
                    &&& *final(self) == *old(self)
                },
            },
    {
        let i = match self.find_job_index(id) {
            Some(i) => i,
            None => {
                return Err(StoreError::NotFound);
            },
        };
        proof {
            self.lemma_job_index_unique(i as int, id@);
        }
        self.jobs[i].completion_state = match state {
            Some(s) => Some(str_of(s)),
            None => None,
        };
        proof {
            assert(final(self).jobs@ == old(self).jobs@.update(i as int,
                final(self).jobs@[i as int]));
        }
        Ok(())
    }

    /// Records the index of the last stream event observed for the job.
    pub fn update_job_last_event_index(&mut self, id: &String, index: i64)
        -> (r: Result<(), StoreError>)
        requires
            old(self).wf(),
        ensures
            final(self).wf(),
            same_but_jobs(*old(self), *final(self)),
            match r {
                Ok(()) => {
                    &&& spec_has_job(old(self).jobs@, id@)
                    &&& final(self).jobs@ == old(self).jobs@.update(
                        spec_job_index(old(self).jobs@, id@),
                        Job {
                            last_event_index: index,
                            ..old(self).jobs@[spec_job_index(old(self).jobs@, id@)]
                        },
                    )
                },
                Err(e) => {
                    &&& e == StoreError::NotFound
                    &&& !spec_has_job(old(self).jobs@, id@)
                    &&& *final(self) == *old(self)
                },
            },
    {
        let i = match self.find_job_index(id) {
            Some(i) => i,
            None => {
                return Err(StoreError::NotFound);
            },
        };
        proof {
            self.lemma_job_index_unique(i as int, id@);
        }
        self.jobs[i].last_event_index = index;
        proof {
            assert(final(self).jobs@ == old(self).jobs@.update(i as int,
                final(self).jobs@[i as int]));
        }
        Ok(())
    }

    /// Looks a job up by id.
    pub fn get_job(&self, id: &String) -> (r: Option<&Job>)
        requires
            self.wf(),
        ensures
            match r {
                Some(j) => spec_has_job(self.jobs@, id@)
                    && *j == self.jobs@[spec_job_index(self.jobs@, id@)],
                None => !spec_has_job(self.jobs@, id@),
            },
    {
        match self.find_job_index(id) {
            Some(i) => {
                proof {
                    self.lemma_job_index_unique(i as int, id@);
                }
                Some(&self.jobs[i])
            },
            None => None,
        }
    }
}

/// All tables other than the job rows are untouched.
pub open spec fn same_but_jobs(a: Store, b: Store) -> bool {
    &&& a.company_profile == b.company_profile
    &&& a.logs == b.logs
    &&& a.leads == b.leads
    &&& a.people == b.people
    &&& a.prompts == b.prompts
    &&& a.scoring_configs == b.scoring_configs
    &&& a.lead_scores == b.lead_scores
    &&& a.settings == b.settings
    &&& a.next_log_id == b.next_log_id
    &&& a.next_lead_id == b.next_lead_id
    &&& a.next_person_id == b.next_person_id
    &&& a.next_prompt_id == b.next_prompt_id
    &&& a.next_config_id == b.next_config_id
    &&& a.next_score_id == b.next_score_id
}

/// An owned copy of a borrowed string, preserving its characters.
pub fn str_of(s: &str) -> (r: String)
    ensures
        r@ == s@,
{
    String::from_str(s)
}

/// One log line handed to the store in a batch flush.
#[derive(Debug)]
pub struct BatchLogEntry {
    pub job_id: String,
    pub log_type: String,
    pub content: String,
    pub tool_name: Option<String>,
    pub sequence: i64,
    pub source: String,
}

impl Clone for BatchLogEntry {
    fn clone(&self) -> (r: Self)
        ensures
            r == *self,
    {
        BatchLogEntry {
            job_id: self.job_id.clone(),
            log_type: self.log_type.clone(),
            content: self.content.clone(),
            tool_name: clone_opt_string(&self.tool_name),
            sequence: self.sequence,
            source: self.source.clone(),
        }
    }
}

/// The persisted row a batch entry becomes: the same fields, a fresh row id,
/// and the server-side timestamp of the flush.
pub open spec fn spec_log_row_matches(e: BatchLogEntry, l: JobLog, now: i64) -> bool {
    &&& l.job_id == e.job_id
    &&& l.log_type == e.log_type
    &&& l.content == e.content
    &&& l.tool_name == e.tool_name
    &&& l.sequence == e.sequence
    &&& l.source == e.source
    &&& l.timestamp == now
}

fn find_group_index(logs: &Vec<JobLogGroup>, id: &String) -> (r: Option<usize>)
    ensures
        match r {
            Some(i) => i < logs@.len() && logs@[i as int].job_id@ == id@,
            None => forall|k: int| 0 <= k < logs@.len() ==> logs@[k].job_id@ != id@,
        },
{
    let mut i: usize = 0;
    while i < logs.len()
        invariant
            i <= logs@.len(),
            forall|k: int| 0 <= k < i ==> logs@[k].job_id@ != id@,
        decreases logs@.len() - i,
    {
        if logs[i].job_id == *id {
            return Some(i);
        }
        i += 1;
    }
    None
}

proof fn lemma_group_index_unique(logs: Seq<JobLogGroup>, i: int, id: Seq<char>)
    requires
        logs_wf(logs),
        0 <= i < logs.len(),
        logs[i].job_id@ == id,
    ensures
        spec_has_group(logs, id),
        spec_group_index(logs, id) == i,
{
    assert(spec_has_group(logs, id));
    let j = spec_group_index(logs, id);
    if i < j {
        assert(logs[i].job_id@ != logs[j].job_id@);
    } else if j < i {
        assert(logs[j].job_id@ != logs[i].job_id@);
    }
}

impl Store {
    /// What a successful batch insert does: the job's persisted run is
    /// extended by exactly the batch, row for row, and no other group moves.
    pub open spec fn spec_batch_appended_here(self, post: Store, entries: Seq<BatchLogEntry>,
        now: i64) -> bool {
        let jid = entries[0].job_id@;
        let oldseq = spec_job_log_seq(self.logs@, jid);
        let newseq = spec_job_log_seq(post.logs@, jid);
        &&& newseq.len() == oldseq.len() + entries.len()
        &&& forall|k: int| 0 <= k < oldseq.len() ==> newseq[k] == oldseq[k]
        &&& forall|k: int|
            0 <= k < entries.len() ==> spec_log_row_matches(
                entries[k],
                #[trigger] newseq[oldseq.len() + k],
                now,
            )
        &&& (spec_has_group(self.logs@, jid) ==> post.logs@ == self.logs@.update(
            spec_group_index(self.logs@, jid),
            post.logs@[spec_group_index(self.logs@, jid)],
        ))
        &&& (!spec_has_group(self.logs@, jid) ==> post.logs@ == self.logs@.push(
            post.logs@.last(),
        ) && post.logs@.last().job_id@ == jid)
    }

    /// The conditions under which a batch of log lines is accepted: the job
    /// row exists, every entry belongs to that one job, the sequences continue
    /// the job's persisted run without gap or overlap, and no counter
    /// overflows. A replay of an already persisted range fails the sequence
    /// condition, which is what makes the insert safely rejectable on replay.
    pub open spec fn spec_batch_insert_ok(self, entries: Seq<BatchLogEntry>) -> bool {
        let jid = entries[0].job_id@;
        let base = spec_job_log_seq(self.logs@, jid).len();
        &&& spec_has_job(self.jobs@, jid)
        &&& forall|k: int| 0 <= k < entries.len() ==> (#[trigger] entries[k]).job_id@ == jid
        &&& forall|k: int| 0 <= k < entries.len() ==> (#[trigger] entries[k]).sequence == base + k
        &&& base + entries.len() <= 0x7fff_ffff_ffff_ffff
        &&& self.next_log_id + entries.len() <= 0x7fff_ffff_ffff_ffff
    }

    /// Appends a contiguous run of log rows for one job, all or nothing.
    /// On refusal the store is unchanged, so a failed or replayed flush
    /// never disturbs what is already persisted.
    pub fn insert_job_logs_batch(&mut self, entries: &Vec<BatchLogEntry>, now: i64)
        -> (r: Result<usize, StoreError>)
        requires
            old(self).wf(),
        ensures
            final(self).wf(),
            same_but_logs(*old(self), *final(self)),
            match r {
                Ok(n) => {
                    &&& n == entries@.len()
                    &&& (n == 0 ==> *final(self) == *old(self))
                    &&& (n > 0 ==> old(self).spec_batch_insert_ok(entries@)
                        && spec_batch_appended(*old(self), *final(self), entries@, now))
                },
                Err(e) => {
                    &&& e == StoreError::Constraint
                    &&& *final(self) == *old(self)
                    &&& entries@.len() > 0
                    &&& !old(self).spec_batch_insert_ok(entries@)
                },
            },
    {
        let n = entries.len();
        if n == 0 {
            return Ok(0);
        }
        // The whole batch must reference one existing job row.
        if self.find_job_index(&entries[0].job_id).is_none() {
            return Err(StoreError::Constraint);
        }
        proof {
            assert(spec_has_job(self.jobs@, entries@[0].job_id@));
        }
        let gi_opt = find_group_index(&self.logs, &entries[0].job_id);
        let base: usize = match gi_opt {
            Some(g) => {
                proof {
                    lemma_group_index_unique(self.logs@, g as int, entries@[0].job_id@);
                }
                self.logs[g].entries.len()
            },
            None => 0,
        };
        proof {
            assert(base == spec_job_log_seq(self.logs@, entries@[0].job_id@).len());
        }
        // Sequences must continue the persisted run exactly.
        let mut expected: i64 = base as i64;
        let mut k: usize = 0;
        while k < n
            invariant
                *self == *old(self),
                old(self).wf(),
                n == entries@.len(),
                n > 0,
                k <= n,
                expected == base + k,
                base + k <= 0x7fff_ffff_ffff_ffff,
                spec_has_job(self.jobs@, entries@[0].job_id@),
                base == spec_job_log_seq(self.logs@, entries@[0].job_id@).len(),
                match gi_opt {
                    Some(g) => g < self.logs@.len() && self.logs@[g as int].job_id@
                        == entries@[0].job_id@,
                    None => !spec_has_group(self.logs@, entries@[0].job_id@),
                },
                forall|m: int| 0 <= m < k ==> (#[trigger] entries@[m]).job_id@ == entries@[0].job_id@,
                forall|m: int| 0 <= m < k ==> (#[trigger] entries@[m]).sequence == base + m,
            decreases n - k,
        {
            if entries[k].job_id != entries[0].job_id {
                return Err(StoreError::Constraint);
            }
            if entries[k].sequence != expected {
                return Err(StoreError::Constraint);
            }
            expected = match expected.checked_add(1) {
                Some(e) => e,
                None => {
                    return Err(StoreError::Constraint);
                },
            };
            k += 1;
        }
        let n_i64: i64 = expected - base as i64;
        let new_next: i64 = match self.next_log_id.checked_add(n_i64) {
            Some(v) => v,
            None => {
                return Err(StoreError::Constraint);
            },
        };
        proof {
            assert(old(self).spec_batch_insert_ok(entries@));
        }
        // The checks passed: append the rows.
        let gi: usize = match gi_opt {
            Some(g) => g,
            None => {
                let g = self.logs.len();
                self.logs.push(JobLogGroup { job_id: entries[0].job_id.clone(), entries: Vec::new() });
                g
            },
        };
        let mut k: usize = 0;
        while k < n
            invariant
                old(self).wf(),
                n == entries@.len(),
                n > 0,
                k <= n,
                gi < self.logs@.len(),
                self.next_log_id == old(self).next_log_id + k,
                old(self).next_log_id + n <= 0x7fff_ffff_ffff_ffff,
                base + n <= 0x7fff_ffff_ffff_ffff,
                same_but_logs(*old(self), *self),
                forall|m: int| 0 <= m < n ==> (#[trigger] entries@[m]).job_id@ == entries@[0].job_id@,
                forall|m: int| 0 <= m < n ==> (#[trigger] entries@[m]).sequence == base + m,
                self.logs@[gi as int].job_id@ == entries@[0].job_id@,
                self.logs@[gi as int].entries@.len() == base + k,
                forall|m: int|
                    0 <= m < base ==> self.logs@[gi as int].entries@[m]
                        == spec_job_log_seq(old(self).logs@, entries@[0].job_id@)[m],
                forall|m: int|
                    0 <= m < k ==> spec_log_row_matches(
                        entries@[m],
                        #[trigger] self.logs@[gi as int].entries@[base + m],
                        now,
                    ),
                spec_job_log_seq(old(self).logs@, entries@[0].job_id@).len() == base,
                forall|m: int|
                    0 <= m < self.logs@.len() && m != gi ==> self.logs@[m]
                        == old(self).logs@[m],
                spec_has_group(old(self).logs@, entries@[0].job_id@) ==> self.logs@.len()
                    == old(self).logs@.len() && gi == spec_group_index(old(self).logs@, entries@[0].job_id@),
                !spec_has_group(old(self).logs@, entries@[0].job_id@) ==> self.logs@.len()
                    == old(self).logs@.len() + 1 && gi == old(self).logs@.len(),
                forall|i: int, j: int|
                    #![trigger self.logs@[i].job_id, self.logs@[j].job_id]
                    0 <= i < j < self.logs@.len() ==> self.logs@[i].job_id@ != self.logs@[j].job_id@,
                forall|i: int| 0 <= i < self.logs@.len() && i != gi ==> group_wf(#[trigger] self.logs@[i]),
            decreases n - k,
        {
            let row = JobLog {
                id: self.next_log_id,
                job_id: entries[k].job_id.clone(),
                log_type: entries[k].log_type.clone(),
                content: entries[k].content.clone(),
                tool_name: clone_opt_string(&entries[k].tool_name),
                timestamp: now,
                sequence: entries[k].sequence,
                source: entries[k].source.clone(),
            };
            self.logs[gi].entries.push(row);
            self.next_log_id = self.next_log_id + 1;
            k += 1;
        }
        proof {
            let jid = entries@[0].job_id@;
            let g = self.logs@[gi as int];
            if spec_has_group(old(self).logs@, jid) {
                assert(group_wf(old(self).logs@[spec_group_index(old(self).logs@, jid)]));
            }
            assert forall|m: int| 0 <= m < g.entries@.len() implies (#[trigger] g.entries@[m]).sequence
                == m && g.entries@[m].job_id@ == g.job_id@ by {
                if m < base {
                    assert(g.entries@[m] == spec_job_log_seq(old(self).logs@, jid)[m]);
                } else {
                    assert(spec_log_row_matches(entries@[m - base], g.entries@[m], now));
                    assert(entries@[m - base].sequence == base + (m - base));
                }
            }
            assert(group_wf(g));
            if spec_has_group(old(self).logs@, jid) {
                assert(final(self).logs@ =~= old(self).logs@.update(gi as int,
                    final(self).logs@[gi as int]));
            } else {
                assert(final(self).logs@ =~= old(self).logs@.push(final(self).logs@[gi as int]));
            }
            lemma_group_index_unique(final(self).logs@, gi as int, jid);
        }
        Ok(n)
    }

    /// Reads a job's persisted log rows in sequence order, optionally only
    /// those after a given sequence and at most a given number.
    pub fn get_job_logs(&self, id: &String, after_sequence: Option<i64>, limit: Option<usize>)
        -> (r: Vec<JobLog>)
        requires
            self.wf(),
        ensures
            ({
                let all = spec_job_log_seq(self.logs@, id@);
                let start = match after_sequence {
                    Some(a) => if a < 0 {
                        0
                    } else if a + 1 <= all.len() {
                        a + 1
                    } else {
                        all.len() as int
                    },
                    None => 0,
                };
                let avail = all.len() - start;
                let m = match limit {
                    Some(l) => if l <= avail {
                        l as int
                    } else {
                        avail
                    },
                    None => avail,
                };
                &&& r@.len() == m
                &&& forall|k: int| 0 <= k < m ==> r@[k] == all[start + k]
            }),
    {
        let mut out: Vec<JobLog> = Vec::new();
        let gi = match find_group_index(&self.logs, id) {
            Some(g) => g,
            None => {
                return out;
            },
        };
        proof {
            lemma_group_index_unique(self.logs@, gi as int, id@);
        }
        let total: usize = self.logs[gi].entries.len();
        let start: usize = match after_sequence {
            Some(a) => {
                if a < 0 {
                    0
                } else if a < total as i64 {
                    (a + 1) as usize
                } else {
                    total
                }
            },
            None => 0,
        };
        let avail: usize = total - start;
        let m: usize = match limit {
            Some(l) => if l <= avail {
                l
            } else {
                avail
            },
            None => avail,
        };
        let mut k: usize = 0;
        while k < m
            invariant
                self.wf(),
                gi < self.logs@.len(),
                self.logs@[gi as int].job_id@ == id@,
                spec_group_index(self.logs@, id@) == gi,
                spec_has_group(self.logs@, id@),
                total == self.logs@[gi as int].entries@.len(),
                start + m <= total,
                k <= m,
                out@.len() == k,
                forall|i: int|
                    0 <= i < k ==> out@[i] == self.logs@[gi as int].entries@[start + i],
            decreases m - k,
        {
            out.push(self.logs[gi].entries[start + k].clone());
            k += 1;
        }
        out
    }
}

/// Timestamps never run backwards: in a well-formed store every job's
/// creation, start and completion times are ordered whenever set, the
/// start time is present exactly while the job runs or ran, and the
/// completion time is present exactly on the terminal statuses.
pub proof fn lemma_job_timestamps(s: Store)
    requires
        s.wf(),
    ensures
        forall|k: int|
            0 <= k < s.jobs@.len() ==> {
                let j = #[trigger] s.jobs@[k];
                &&& (j.started_at matches Some(st) ==> j.created_at <= st)
                &&& (j.completed_at matches Some(ct) ==> j.created_at <= ct)
                &&& match (j.started_at, j.completed_at) {
                    (Some(st), Some(ct)) => st <= ct,
                    _ => true,
                }
                &&& (j.status.spec_is_terminal() <==> j.completed_at is Some)
                &&& (j.status == JobStatus::Running ==> j.started_at is Some)
            },
{
    assert forall|k: int| 0 <= k < s.jobs@.len() implies (#[trigger] s.jobs@[k]).wf() by {}
}

/// Log sequences are a contiguous prefix of the naturals: in a well-formed
/// store, the k-th persisted log row of any job carries sequence k.
pub proof fn lemma_log_sequences_contiguous(s: Store, id: Seq<char>)
    requires
        s.wf(),
    ensures
        forall|k: int|
            0 <= k < spec_job_log_seq(s.logs@, id).len() ==> (#[trigger] spec_job_log_seq(
                s.logs@,
                id,
            )[k]).sequence == k,
{
    if spec_has_group(s.logs@, id) {
        let g = spec_group_index(s.logs@, id);
        assert(group_wf(s.logs@[g]));
    }
}

/// Replaying an already persisted batch is rejected: once a batch has been
/// appended, the same sequence range no longer continues the persisted
/// run, so a second insert of it refuses and leaves the store unchanged.
pub proof fn lemma_batch_replay_rejected(pre: Store, post: Store, entries: Seq<BatchLogEntry>,
    now: i64)
    requires
        entries.len() > 0,
        pre.spec_batch_insert_ok(entries),
        spec_batch_appended(pre, post, entries, now),
    ensures
        !post.spec_batch_insert_ok(entries),
{
    let jid = entries[0].job_id@;
    let oldseq = spec_job_log_seq(pre.logs@, jid);
    let newseq = spec_job_log_seq(post.logs@, jid);
    assert(entries[0].sequence == oldseq.len() + 0);
    assert(newseq.len() == oldseq.len() + entries.len());
}

/// What a successful batch insert does, as a free predicate.
pub open spec fn spec_batch_appended(pre: Store, post: Store, entries: Seq<BatchLogEntry>,
    now: i64) -> bool {
    pre.spec_batch_appended_here(post, entries, now)
}

/// Looking a job up commutes with updating another row, or the same row
/// when its id is kept.
pub proof fn lemma_job_update_lookup(pre: Seq<Job>, post: Seq<Job>, idx: int, id2: Seq<char>)
    requires
        forall|i: int, j: int|
            #![trigger pre[i].id, pre[j].id]
            0 <= i < j < pre.len() ==> pre[i].id@ != pre[j].id@,
        0 <= idx < pre.len(),
        post == pre.update(idx, post[idx]),
        post[idx].id@ == pre[idx].id@,
        spec_has_job(pre, id2),
    ensures
        spec_has_job(post, id2),
        spec_job_index(post, id2) == spec_job_index(pre, id2),
        id2 != pre[idx].id@ ==> post[spec_job_index(post, id2)] == pre[spec_job_index(pre, id2)],
        id2 == pre[idx].id@ ==> spec_job_index(post, id2) == idx,
{
    let j = spec_job_index(pre, id2);
    assert(0 <= j < pre.len() && pre[j].id@ == id2);
    assert(post[j].id@ == id2);
    assert(spec_has_job(post, id2));
    let k = spec_job_index(post, id2);
    assert(0 <= k < post.len() && post[k].id@ == id2);
    if k != j {
        assert(pre[k].id@ == post[k].id@);
        if j < k {
            assert(pre[j].id@ != pre[k].id@);
        } else {
            assert(pre[k].id@ != pre[j].id@);
        }
    }
    if id2 == pre[idx].id@ {
        if j != idx {
            if j < idx {
                assert(pre[j].id@ != pre[idx].id@);
            } else {
                assert(pre[idx].id@ != pre[j].id@);
            }
        }
    }
}

/// A queued or running job: one that recovery and deduplication treat as live.
pub open spec fn spec_job_active(j: Job) -> bool {
    j.status == JobStatus::Queued || j.status == JobStatus::Running
}

/// A live job for the given entity and kind: the subject of deduplication.
pub open spec fn spec_active_match(j: Job, entity_id: i64, job_type: Seq<char>) -> bool {
    &&& j.entity_id == entity_id
    &&& j.job_type@ == job_type
    &&& spec_job_active(j)
}

/// Extending a prefix by one element extends its filtered image exactly when
/// the element satisfies the predicate.
pub proof fn lemma_filter_step<A>(s: Seq<A>, pred: spec_fn(A) -> bool, p: int)
    requires
        0 <= p < s.len(),
    ensures
        pred(s[p]) ==> s.subrange(0, p + 1).filter(pred)
            == s.subrange(0, p).filter(pred).push(s[p]),
        !pred(s[p]) ==> s.subrange(0, p + 1).filter(pred) == s.subrange(0, p).filter(pred),
{
    reveal(Seq::filter);
    assert(s.subrange(0, p + 1).drop_last() == s.subrange(0, p));
    assert(s.subrange(0, p + 1).last() == s[p]);
}

/// Every element of a filtered sequence occurs in the original.
pub proof fn lemma_filter_subset<A>(s: Seq<A>, pred: spec_fn(A) -> bool)
    ensures
        forall|i: int|
            0 <= i < s.filter(pred).len() ==> exists|m: int|
                0 <= m < s.len() && s[m] == #[trigger] s.filter(pred)[i],
    decreases s.len(),
{
    reveal(Seq::filter);
    if s.len() != 0 {
        let t = s.drop_last();
        lemma_filter_subset(t, pred);
        assert forall|i: int| 0 <= i < s.filter(pred).len() implies exists|m: int|
            0 <= m < s.len() && s[m] == #[trigger] s.filter(pred)[i] by {
            if i < t.filter(pred).len() {
                let m = choose|m: int| 0 <= m < t.len() && t[m] == t.filter(pred)[i];
                assert(s[m] == s.filter(pred)[i]);
            } else {
                assert(s[s.len() - 1] == s.filter(pred)[i]);
            }
        }
    }
}

/// Filtering keeps keys pairwise distinct.
pub proof fn lemma_filter_distinct_keys<A, K>(s: Seq<A>, pred: spec_fn(A) -> bool,
    key: spec_fn(A) -> K)
    requires
        forall|i: int, j: int|
            0 <= i < j < s.len() ==> key(#[trigger] s[i]) != key(#[trigger] s[j]),
    ensures
        forall|i: int, j: int|
            0 <= i < j < s.filter(pred).len() ==> key(#[trigger] s.filter(pred)[i])
                != key(#[trigger] s.filter(pred)[j]),
    decreases s.len(),
{
    reveal(Seq::filter);
    if s.len() != 0 {
        let t = s.drop_last();
        lemma_filter_distinct_keys(t, pred, key);
        lemma_filter_subset(t, pred);
        assert forall|i: int, j: int| 0 <= i < j < s.filter(pred).len() implies key(
            #[trigger] s.filter(pred)[i]) != key(#[trigger] s.filter(pred)[j]) by {
            if j < t.filter(pred).len() {
                assert(key(t.filter(pred)[i]) != key(t.filter(pred)[j]));
            } else {
                assert(s.filter(pred)[j] == s[s.len() - 1]);
                let m = choose|m: int| 0 <= m < t.len() && t[m] == t.filter(pred)[i];
                assert(key(s[m]) != key(s[s.len() - 1]));
            }
        }
    }
}

/// A property of every element survives filtering.
pub proof fn lemma_filter_elements<A>(s: Seq<A>, pred: spec_fn(A) -> bool,
    prop: spec_fn(A) -> bool)
    requires
        forall|i: int| 0 <= i < s.len() ==> prop(#[trigger] s[i]),
    ensures
        forall|i: int| 0 <= i < s.filter(pred).len() ==> prop(#[trigger] s.filter(pred)[i]),
{
    lemma_filter_subset(s, pred);
    assert forall|i: int| 0 <= i < s.filter(pred).len() implies prop(
        #[trigger] s.filter(pred)[i]) by {
        let m = choose|m: int| 0 <= m < s.len() && s[m] == s.filter(pred)[i];
        assert(prop(s[m]));
    }
}

impl Store {
    /// The most recently created live job for this entity and kind, if any:
    /// the row the deduplication protocol asks about before submitting.
    pub fn get_active_job_for_entity(&self, entity_id: i64, job_type: &str) -> (r: Option<Job>)
        requires
            self.wf(),
        ensures
            match r {
                Some(j) => {
                    &&& spec_active_match(j, entity_id, job_type@)
                    &&& self.jobs@.contains(j)
                    &&& forall|k: int|
                        0 <= k < self.jobs@.len() && spec_active_match(
                            #[trigger] self.jobs@[k],
                            entity_id,
                            job_type@,
                        ) ==> self.jobs@[k].created_at <= j.created_at
                },
                None => forall|k: int|
                    0 <= k < self.jobs@.len() ==> !spec_active_match(
                        #[trigger] self.jobs@[k],
                        entity_id,
                        job_type@,
                    ),
            },
    {
        let jt = str_of(job_type);
        let mut best: Option<usize> = None;
        let mut i: usize = 0;
        while i < self.jobs.len()
            invariant
                i <= self.jobs@.len(),
                match best {
                    Some(b) => {
                        &&& b < i
                        &&& spec_active_match(self.jobs@[b as int], entity_id, job_type@)
                        &&& forall|k: int|
                            0 <= k < i && spec_active_match(
                                #[trigger] self.jobs@[k],
                                entity_id,
                                job_type@,
                            ) ==> self.jobs@[k].created_at <= self.jobs@[b as int].created_at
                    },
                    None => forall|k: int|
                        0 <= k < i ==> !spec_active_match(
                            #[trigger] self.jobs@[k],
                            entity_id,
                            job_type@,
                        ),
                },
                jt@ == job_type@,
            decreases self.jobs@.len() - i,
        {
            let j = &self.jobs[i];
            let active = matches!(j.status, JobStatus::Queued | JobStatus::Running);
            if j.entity_id == entity_id && j.job_type == jt && active {
                match best {
                    Some(b) => {
                        if self.jobs[i].created_at >= self.jobs[b].created_at {
                            best = Some(i);
                        }
                    },
                    None => {
                        best = Some(i);
                    },
                }
            }
            i += 1;
        }
        match best {
            Some(b) => Some(self.jobs[b].clone()),
            None => None,
        }
    }

    /// All live (queued or running) job rows, in table order.
    pub fn get_active_jobs(&self) -> (r: Vec<Job>)
        requires
            self.wf(),
        ensures
            r@ == self.jobs@.filter(|j: Job| spec_job_active(j)),
    {
        let mut out: Vec<Job> = Vec::new();
        let mut i: usize = 0;
        while i < self.jobs.len()
            invariant
                i <= self.jobs@.len(),
                out@ == self.jobs@.subrange(0, i as int).filter(|j: Job| spec_job_active(j)),
            decreases self.jobs@.len() - i,
        {
            proof {
                lemma_filter_step(self.jobs@, |j: Job| spec_job_active(j), i as int);
            }
            if matches!(self.jobs[i].status, JobStatus::Queued | JobStatus::Running) {
                out.push(self.jobs[i].clone());
            }
            i += 1;
        }
        proof {
            assert(self.jobs@.subrange(0, self.jobs@.len() as int) == self.jobs@);
        }
        out
    }

    /// The most recently recorded jobs, newest first, at most `limit` of them.
    pub fn get_recent_jobs(&self, limit: usize) -> (r: Vec<Job>)
        requires
            self.wf(),
        ensures
            r@.len() == if limit <= self.jobs@.len() {
                limit as int
            } else {
                self.jobs@.len() as int
            },
            forall|k: int| 0 <= k < r@.len() ==> r@[k] == self.jobs@[self.jobs@.len() - 1 - k],
    {
        let n = self.jobs.len();
        let m: usize = if limit <= n {
            limit
        } else {
            n
        };
        let mut out: Vec<Job> = Vec::new();
        let mut k: usize = 0;
        while k < m
            invariant
                m <= n,
                n == self.jobs@.len(),
                k <= m,
                out@.len() == k,
                forall|i: int| 0 <= i < k ==> out@[i] == self.jobs@[n - 1 - i],
            decreases m - k,
        {
            out.push(self.jobs[n - 1 - k].clone());
            k += 1;
        }
        out
    }

    /// Deletes log rows and then jobs created before the retention cutoff,
    /// returning how many jobs were removed.
    pub fn cleanup_old_jobs(&mut self, days: i64, now: i64) -> (r: usize)
        requires
            old(self).wf(),
            0 <= days <= 100_000,
            now >= i64::MIN + 100_000 * 86_400,
        ensures
            final(self).wf(),
            same_but_jobs_and_logs(*old(self), *final(self)),
            final(self).jobs@ == old(self).jobs@.filter(
                |j: Job| j.created_at >= now - days * 86_400,
            ),
            final(self).logs@ == old(self).logs@.filter(
                |g: JobLogGroup| spec_has_job(final(self).jobs@, g.job_id@),
            ),
            r == old(self).jobs@.len() - final(self).jobs@.len(),
    {
        let cutoff: i64 = now - days * 86_400;
        let ghost orig = self.jobs@;
        let before: usize = self.jobs.len();
        let ghost mut p: int = 0;
        let mut i: usize = 0;
        while i < self.jobs.len()
            invariant
                0 <= p <= orig.len(),
                i == orig.subrange(0, p).filter(|j: Job| j.created_at >= now - days * 86_400).len(),
                self.jobs@ =~= orig.subrange(0, p).filter(
                    |j: Job| j.created_at >= now - days * 86_400,
                ) + orig.subrange(p, orig.len() as int),
                cutoff == now - days * 86_400,
                same_but_jobs(*old(self), *self),
                orig == old(self).jobs@,
            decreases self.jobs@.len() - i,
        {
            proof {
                assert(self.jobs@[i as int] == orig[p]);
                lemma_filter_step(orig, |j: Job| j.created_at >= now - days * 86_400, p);
            }
            if self.jobs[i].created_at >= cutoff {
                i += 1;
                proof {
                    p = p + 1;
                    assert(self.jobs@ =~= orig.subrange(0, p).filter(
                        |j: Job| j.created_at >= now - days * 86_400,
                    ) + orig.subrange(p, orig.len() as int));
                }
            } else {
                self.jobs.remove(i);
                proof {
                    p = p + 1;
                    assert(self.jobs@ =~= orig.subrange(0, p).filter(
                        |j: Job| j.created_at >= now - days * 86_400,
                    ) + orig.subrange(p, orig.len() as int));
                }
            }
        }
        proof {
            assert(p == orig.len());
            assert(orig.subrange(0, orig.len() as int) == orig);
            assert(self.jobs@ =~= orig.filter(|j: Job| j.created_at >= now - days * 86_400));
            lemma_filter_distinct_keys(orig, |j: Job| j.created_at >= now - days * 86_400,
                |j: Job| j.id@);
            lemma_filter_elements(orig, |j: Job| j.created_at >= now - days * 86_400,
                |j: Job| j.wf());
        }
        let deleted: usize = before - self.jobs.len();
        // Drop the log groups whose job row is gone.
        let ghost lorig = self.logs@;
        let ghost mut q: int = 0;
        let mut g: usize = 0;
        while g < self.logs.len()
            invariant
                old(self).wf(),
                0 <= q <= lorig.len(),
                g == lorig.subrange(0, q).filter(
                    |gr: JobLogGroup| spec_has_job(self.jobs@, gr.job_id@),
                ).len(),
                self.logs@ =~= lorig.subrange(0, q).filter(
                    |gr: JobLogGroup| spec_has_job(self.jobs@, gr.job_id@),
                ) + lorig.subrange(q, lorig.len() as int),
                same_but_logs_and_jobs_fixed(*old(self), *self),
                lorig == old(self).logs@,
                jobs_wf(self.jobs@),
                self.jobs@ == old(self).jobs@.filter(|j: Job| j.created_at >= now - days * 86_400),
            decreases self.logs@.len() - g,
        {
            proof {
                assert(self.logs@[g as int] == lorig[q]);
                lemma_filter_step(lorig, |gr: JobLogGroup| spec_has_job(self.jobs@, gr.job_id@), q);
            }
            let keep = self.find_job_index(&self.logs[g].job_id).is_some();
            if keep {
                proof {
                    assert(spec_has_job(self.jobs@, lorig[q].job_id@));
                }
                g += 1;
                proof {
                    q = q + 1;
                    assert(self.logs@ =~= lorig.subrange(0, q).filter(
                        |gr: JobLogGroup| spec_has_job(self.jobs@, gr.job_id@),
                    ) + lorig.subrange(q, lorig.len() as int));
                }
            } else {
                self.logs.remove(g);
                proof {
                    q = q + 1;
                    assert(self.logs@ =~= lorig.subrange(0, q).filter(
                        |gr: JobLogGroup| spec_has_job(self.jobs@, gr.job_id@),
                    ) + lorig.subrange(q, lorig.len() as int));
                }
            }
        }
        proof {
            assert(q == lorig.len());
            assert(lorig.subrange(0, lorig.len() as int) == lorig);
            assert(self.logs@ =~= lorig.filter(
                |gr: JobLogGroup| spec_has_job(self.jobs@, gr.job_id@),
            ));
            lemma_filter_distinct_keys(lorig,
                |gr: JobLogGroup| spec_has_job(self.jobs@, gr.job_id@),
                |gr: JobLogGroup| gr.job_id@);
            lemma_filter_elements(lorig, |gr: JobLogGroup| spec_has_job(self.jobs@, gr.job_id@),
                |gr: JobLogGroup| group_wf(gr));
        }
        deleted
    }

    /// Deletes one job row and its log rows; a missing id deletes nothing.
    pub fn delete_job(&mut self, id: &String)
        requires
            old(self).wf(),
        ensures
            final(self).wf(),
            same_but_jobs_and_logs(*old(self), *final(self)),
            final(self).jobs@ == old(self).jobs@.filter(|j: Job| j.id@ != id@),
            final(self).logs@ == old(self).logs@.filter(|g: JobLogGroup| g.job_id@ != id@),
    {
        let ghost orig = self.jobs@;
        let ghost mut p: int = 0;
        let mut i: usize = 0;
        while i < self.jobs.len()
            invariant
                0 <= p <= orig.len(),
                i == orig.subrange(0, p).filter(|j: Job| j.id@ != id@).len(),
                self.jobs@ =~= orig.subrange(0, p).filter(|j: Job| j.id@ != id@)
                    + orig.subrange(p, orig.len() as int),
                same_but_jobs(*old(self), *self),
                orig == old(self).jobs@,
            decreases self.jobs@.len() - i,
        {
            proof {
                assert(self.jobs@[i as int] == orig[p]);
                lemma_filter_step(orig, |j: Job| j.id@ != id@, p);
            }
            if self.jobs[i].id != *id {
                i += 1;
                proof {
                    p = p + 1;
                    assert(self.jobs@ =~= orig.subrange(0, p).filter(|j: Job| j.id@ != id@)
                        + orig.subrange(p, orig.len() as int));
                }
            } else {
                self.jobs.remove(i);
                proof {
                    p = p + 1;
                    assert(self.jobs@ =~= orig.subrange(0, p).filter(|j: Job| j.id@ != id@)
                        + orig.subrange(p, orig.len() as int));
                }
            }
        }
        proof {
            assert(p == orig.len());
            assert(orig.subrange(0, orig.len() as int) == orig);
            assert(self.jobs@ =~= orig.filter(|j: Job| j.id@ != id@));
            lemma_filter_distinct_keys(orig, |j: Job| j.id@ != id@, |j: Job| j.id@);
            lemma_filter_elements(orig, |j: Job| j.id@ != id@, |j: Job| j.wf());
        }
        let ghost lorig = self.logs@;
        let ghost mut q: int = 0;
        let mut g: usize = 0;
        while g < self.logs.len()
            invariant
                0 <= q <= lorig.len(),
                g == lorig.subrange(0, q).filter(|gr: JobLogGroup| gr.job_id@ != id@).len(),
                self.logs@ =~= lorig.subrange(0, q).filter(|gr: JobLogGroup| gr.job_id@ != id@)
                    + lorig.subrange(q, lorig.len() as int),
                same_but_logs_and_jobs_fixed(*old(self), *self),
                jobs_wf(self.jobs@),
                self.jobs@ == old(self).jobs@.filter(|j: Job| j.id@ != id@),
                lorig == old(self).logs@,
            decreases self.logs@.len() - g,
        {
            proof {
                assert(self.logs@[g as int] == lorig[q]);
                lemma_filter_step(lorig, |gr: JobLogGroup| gr.job_id@ != id@, q);
            }
            if self.logs[g].job_id != *id {
                g += 1;
                proof {
                    q = q + 1;
                    assert(self.logs@ =~= lorig.subrange(0, q).filter(
                        |gr: JobLogGroup| gr.job_id@ != id@,
                    ) + lorig.subrange(q, lorig.len() as int));
                }
            } else {
                self.logs.remove(g);
                proof {
                    q = q + 1;
                    assert(self.logs@ =~= lorig.subrange(0, q).filter(
                        |gr: JobLogGroup| gr.job_id@ != id@,
                    ) + lorig.subrange(q, lorig.len() as int));
                }
            }
        }
        proof {
            assert(q == lorig.len());
            assert(lorig.subrange(0, lorig.len() as int) == lorig);
            assert(self.logs@ =~= lorig.filter(|gr: JobLogGroup| gr.job_id@ != id@));
            lemma_filter_distinct_keys(lorig, |gr: JobLogGroup| gr.job_id@ != id@,
                |gr: JobLogGroup| gr.job_id@);
            lemma_filter_elements(lorig, |gr: JobLogGroup| gr.job_id@ != id@,
                |gr: JobLogGroup| group_wf(gr));
        }
    }
}

pub open spec fn spec_has_lead(leads: Seq<Lead>, id: i64) -> bool {
    exists|i: int| 0 <= i < leads.len() && leads[i].id == id
}

pub open spec fn spec_lead_index(leads: Seq<Lead>, id: i64) -> int {
    choose|i: int| 0 <= i < leads.len() && leads[i].id == id
}

pub open spec fn spec_has_person(people: Seq<Person>, id: i64) -> bool {
    exists|i: int| 0 <= i < people.len() && people[i].id == id
}

pub open spec fn spec_person_index(people: Seq<Person>, id: i64) -> int {
    choose|i: int| 0 <= i < people.len() && people[i].id == id
}

/// The fields an enrichment run may fill on a lead, and the null-only rule
/// for every one of them; everything else is untouched.
pub open spec fn spec_lead_enriched(oldl: Lead, newl: Lead, e: LeadEnrichment) -> bool {
    &&& newl.website == spec_coalesce(oldl.website, e.website)
    &&& newl.industry == spec_coalesce(oldl.industry, e.industry)
    &&& newl.sub_industry == spec_coalesce(oldl.sub_industry, e.sub_industry)
    &&& newl.employees == spec_coalesce(oldl.employees, e.employees)
    &&& newl.employee_range == spec_coalesce(oldl.employee_range, e.employee_range)
    &&& newl.revenue == spec_coalesce(oldl.revenue, e.revenue)
    &&& newl.revenue_range == spec_coalesce(oldl.revenue_range, e.revenue_range)
    &&& newl.company_linkedin_url == spec_coalesce(oldl.company_linkedin_url, e.company_linkedin_url)
    &&& newl.city == spec_coalesce(oldl.city, e.city)
    &&& newl.state == spec_coalesce(oldl.state, e.state)
    &&& newl.country == spec_coalesce(oldl.country, e.country)
    &&& newl.id == oldl.id
    &&& newl.company_name == oldl.company_name
    &&& newl.research_status == oldl.research_status
    &&& newl.researched_at == oldl.researched_at
    &&& newl.user_status == oldl.user_status
    &&& newl.created_at == oldl.created_at
    &&& newl.company_profile == oldl.company_profile
}

/// The null-only rule for every enrichable person field; everything else is
/// untouched.
pub open spec fn spec_person_enriched(oldp: Person, newp: Person, e: PersonEnrichment) -> bool {
    &&& newp.email == spec_coalesce(oldp.email, e.email)
    &&& newp.title == spec_coalesce(oldp.title, e.title)
    &&& newp.management_level == spec_coalesce(oldp.management_level, e.management_level)
    &&& newp.linkedin_url == spec_coalesce(oldp.linkedin_url, e.linkedin_url)
    &&& newp.year_joined == spec_coalesce(oldp.year_joined, e.year_joined)
    &&& newp.id == oldp.id
    &&& newp.lead_id == oldp.lead_id
    &&& newp.first_name == oldp.first_name
    &&& newp.last_name == oldp.last_name
    &&& newp.person_profile == oldp.person_profile
    &&& newp.research_status == oldp.research_status
    &&& newp.researched_at == oldp.researched_at
    &&& newp.user_status == oldp.user_status
    &&& newp.conversation_topics == oldp.conversation_topics
    &&& newp.conversation_generated_at == oldp.conversation_generated_at
    &&& newp.created_at == oldp.created_at
}

/// A person row freshly created from a research run's people output.
pub open spec fn spec_person_from_parsed(p: ParsedPersonData, row: Person, lead_id: i64,
    now: i64) -> bool {
    &&& row.lead_id == Some(lead_id)
    &&& row.first_name == p.first_name
    &&& row.last_name == p.last_name
    &&& row.email == p.email
    &&& row.title == p.title
    &&& row.linkedin_url == p.linkedin_url
    &&& row.management_level == p.management_level
    &&& row.year_joined == p.year_joined
    &&& row.person_profile is None
    &&& row.research_status == ResearchStatus::Pending
    &&& row.user_status@ == "new"@
    &&& row.conversation_topics is None
    &&& row.conversation_generated_at is None
    &&& row.created_at == now
}

impl Store {
    fn find_lead_index(&self, id: i64) -> (r: Option<usize>)
        ensures
            match r {
                Some(i) => i < self.leads@.len() && self.leads@[i as int].id == id,
                None => !spec_has_lead(self.leads@, id),
            },
    {
        let mut i: usize = 0;
        while i < self.leads.len()
            invariant
                i <= self.leads@.len(),
                forall|k: int| 0 <= k < i ==> self.leads@[k].id != id,
            decreases self.leads@.len() - i,
        {
            if self.leads[i].id == id {
                return Some(i);
            }
            i += 1;
        }
        None
    }

    pub proof fn lemma_lead_index_unique(self, i: int, id: i64)
        requires
            leads_wf(self.leads@, self.next_lead_id),
            0 <= i < self.leads@.len(),
            self.leads@[i].id == id,
        ensures
            spec_has_lead(self.leads@, id),
            spec_lead_index(self.leads@, id) == i,
    {
        assert(spec_has_lead(self.leads@, id));
        let j = spec_lead_index(self.leads@, id);
        if i < j {
            assert(self.leads@[i].id != self.leads@[j].id);
        } else if j < i {
            assert(self.leads@[j].id != self.leads@[i].id);
        }
    }

    fn find_person_index(&self, id: i64) -> (r: Option<usize>)
        ensures
            match r {
                Some(i) => i < self.people@.len() && self.people@[i as int].id == id,
                None => !spec_has_person(self.people@, id),
            },
    {
        let mut i: usize = 0;
        while i < self.people.len()
            invariant
                i <= self.people@.len(),
                forall|k: int| 0 <= k < i ==> self.people@[k].id != id,
            decreases self.people@.len() - i,
        {
            if self.people[i].id == id {
                return Some(i);
            }
            i += 1;
        }
        None
    }

    pub proof fn lemma_person_index_unique(self, i: int, id: i64)
        requires
            people_wf(self.people@, self.next_person_id),
            0 <= i < self.people@.len(),
            self.people@[i].id == id,
        ensures
            spec_has_person(self.people@, id),
            spec_person_index(self.people@, id) == i,
    {
        assert(spec_has_person(self.people@, id));
        let j = spec_person_index(self.people@, id);
        if i < j {
            assert(self.people@[i].id != self.people@[j].id);
        } else if j < i {
            assert(self.people@[j].id != self.people@[i].id);
        }
    }

    /// Looks a lead up by id.
    pub fn get_lead(&self, id: i64) -> (r: Option<&Lead>)
        requires
            self.wf(),
        ensures
            match r {
                Some(l) => spec_has_lead(self.leads@, id)
                    && *l == self.leads@[spec_lead_index(self.leads@, id)],
                None => !spec_has_lead(self.leads@, id),
            },
    {
        match self.find_lead_index(id) {
            Some(i) => {
                proof {
                    self.lemma_lead_index_unique(i as int, id);
                }
                Some(&self.leads[i])
            },
            None => None,
        }
    }

    /// Looks a person up by id.
    pub fn get_person_raw(&self, id: i64) -> (r: Option<&Person>)
        requires
            self.wf(),
        ensures
            match r {
                Some(p) => spec_has_person(self.people@, id)
                    && *p == self.people@[spec_person_index(self.people@, id)],
                None => !spec_has_person(self.people@, id),
            },
    {
        match self.find_person_index(id) {
            Some(i) => {
                proof {
                    self.lemma_person_index_unique(i as int, id);
                }
                Some(&self.people[i])
            },
            None => None,
        }
    }

    /// All people that belong to the given lead, in table order.
    pub fn get_people_for_lead(&self, lead_id: i64) -> (r: Vec<Person>)
        requires
            self.wf(),
        ensures
            r@ == self.people@.filter(|p: Person| p.lead_id == Some(lead_id)),
    {
        let mut out: Vec<Person> = Vec::new();
        let mut i: usize = 0;
        while i < self.people.len()
            invariant
                i <= self.people@.len(),
                out@ == self.people@.subrange(0, i as int).filter(
                    |p: Person| p.lead_id == Some(lead_id),
                ),
            decreases self.people@.len() - i,
        {
            proof {
                lemma_filter_step(self.people@, |p: Person| p.lead_id == Some(lead_id), i as int);
            }
            let keep = match self.people[i].lead_id {
                Some(l) => l == lead_id,
                None => false,
            };
            if keep {
                out.push(self.people[i].clone());
            }
            i += 1;
        }
        proof {
            assert(self.people@.subrange(0, self.people@.len() as int) == self.people@);
        }
        out
    }

    /// Creates a lead with a fresh id, research status `pending` and user
    /// status `new`.
    pub fn insert_lead(&mut self, data: &NewLead, now: i64) -> (r: Result<i64, StoreError>)
        requires
            old(self).wf(),
        ensures
            final(self).wf(),
            match r {
                Ok(id) => {
                    &&& id == old(self).next_lead_id
                    &&& final(self).leads@ == old(self).leads@.push(final(self).leads@.last())
                    &&& {
                        let l = final(self).leads@.last();
                        &&& l.id == id
                        &&& l.company_name == data.company_name
                        &&& l.website == data.website
                        &&& l.city == data.city
                        &&& l.state == data.state
                        &&& l.country == data.country
                        &&& l.industry is None
                        &&& l.research_status == ResearchStatus::Pending
                        &&& l.user_status@ == "new"@
                        &&& l.created_at == now
                        &&& l.company_profile is None
                    }
                },
                Err(e) => e == StoreError::Constraint && *final(self) == *old(self),
            },
    {
        if self.next_lead_id == i64::MAX {
            return Err(StoreError::Constraint);
        }
        let id = self.next_lead_id;
        self.next_lead_id = self.next_lead_id + 1;
        self.leads.push(Lead {
            id,
            company_name: data.company_name.clone(),
            website: clone_opt_string(&data.website),
            industry: None,
            sub_industry: None,
            employees: None,
            employee_range: None,
            revenue: None,
            revenue_range: None,
            company_linkedin_url: None,
            city: clone_opt_string(&data.city),
            state: clone_opt_string(&data.state),
            country: clone_opt_string(&data.country),
            research_status: ResearchStatus::Pending,
            researched_at: None,
            user_status: String::from_str("new"),
            created_at: now,
            company_profile: None,
        });
        Ok(id)
    }

    /// Creates a person with a fresh id, research status `pending` and user
    /// status `new`.
    pub fn insert_person(&mut self, data: &NewPerson, now: i64) -> (r: Result<i64, StoreError>)
        requires
            old(self).wf(),
        ensures
            final(self).wf(),
            match r {
                Ok(id) => {
                    &&& id == old(self).next_person_id
                    &&& final(self).people@ == old(self).people@.push(final(self).people@.last())
                    &&& {
                        let p = final(self).people@.last();
                        &&& p.id == id
                        &&& p.first_name == data.first_name
                        &&& p.last_name == data.last_name
                        &&& p.email == data.email
                        &&& p.title == data.title
                        &&& p.linkedin_url == data.linkedin_url
                        &&& p.lead_id == data.lead_id
                        &&& p.research_status == ResearchStatus::Pending
                        &&& p.user_status@ == "new"@
                        &&& p.created_at == now
                        &&& p.person_profile is None
                    }
                },
                Err(e) => e == StoreError::Constraint && *final(self) == *old(self),
            },
    {
        if self.next_person_id == i64::MAX {
            return Err(StoreError::Constraint);
        }
        let id = self.next_person_id;
        self.next_person_id = self.next_person_id + 1;
        self.people.push(Person {
            id,
            lead_id: data.lead_id,
            first_name: data.first_name.clone(),
            last_name: data.last_name.clone(),
            email: clone_opt_string(&data.email),
            title: clone_opt_string(&data.title),
            management_level: None,
            linkedin_url: clone_opt_string(&data.linkedin_url),
            year_joined: None,
            person_profile: None,
            research_status: ResearchStatus::Pending,
            researched_at: None,
            user_status: String::from_str("new"),
            conversation_topics: None,
            conversation_generated_at: None,
            created_at: now,
        });
        Ok(id)
    }

    /// Sets a lead's research status; reports whether a row was updated.
    pub fn set_lead_research_status(&mut self, id: i64, status: ResearchStatus) -> (r: bool)
        requires
            old(self).wf(),
        ensures
            final(self).wf(),
            same_but_leads(*old(self), *final(self)),
            r == spec_has_lead(old(self).leads@, id),
            r ==> final(self).leads@ == old(self).leads@.update(
                spec_lead_index(old(self).leads@, id),
                Lead {
                    research_status: status,
                    ..old(self).leads@[spec_lead_index(old(self).leads@, id)]
                },
            ),
            !r ==> *final(self) == *old(self),
    {
        let i = match self.find_lead_index(id) {
            Some(i) => i,
            None => {
                return false;
            },
        };
        proof {
            self.lemma_lead_index_unique(i as int, id);
        }
        self.leads[i].research_status = status;
        proof {
            assert(final(self).leads@ == old(self).leads@.update(i as int,
                final(self).leads@[i as int]));
        }
        true
    }

    /// Sets a person's research status; reports whether a row was updated.
    pub fn set_person_research_status(&mut self, id: i64, status: ResearchStatus) -> (r: bool)
        requires
            old(self).wf(),
        ensures
            final(self).wf(),
            same_but_people(*old(self), *final(self)),
            final(self).next_person_id == old(self).next_person_id,
            r == spec_has_person(old(self).people@, id),
            r ==> final(self).people@ == old(self).people@.update(
                spec_person_index(old(self).people@, id),
                Person {
                    research_status: status,
                    ..old(self).people@[spec_person_index(old(self).people@, id)]
                },
            ),
            !r ==> *final(self) == *old(self),
    {
        let i = match self.find_person_index(id) {
            Some(i) => i,
            None => {
                return false;
            },
        };
        proof {
            self.lemma_person_index_unique(i as int, id);
        }
        self.people[i].research_status = status;
        proof {
            assert(final(self).people@ == old(self).people@.update(i as int,
                final(self).people@[i as int]));
        }
        true
    }

    /// Writes a finished company research onto the lead: the status, the
    /// profile text and the research timestamp.
    pub fn update_lead_research(&mut self, lead_id: i64, status: ResearchStatus,
        profile: Option<&str>, now: i64) -> (r: bool)
        requires
            old(self).wf(),
        ensures
            final(self).wf(),
            same_but_leads(*old(self), *final(self)),
            r == spec_has_lead(old(self).leads@, lead_id),
            r ==> {
                let idx = spec_lead_index(old(self).leads@, lead_id);
                let newl = final(self).leads@[idx];
                &&& final(self).leads@ == old(self).leads@.update(idx, newl)
                &&& newl.research_status == status
                &&& newl.researched_at == Some(now)
                &&& match (newl.company_profile, profile) {
                    (Some(a), Some(b)) => a@ == b@,
                    (None, None) => true,
                    _ => false,
                }
                &&& newl == Lead {
                    research_status: newl.research_status,
                    researched_at: newl.researched_at,
                    company_profile: newl.company_profile,
                    ..old(self).leads@[idx]
                }
            },
            !r ==> *final(self) == *old(self),
    {
        let i = match self.find_lead_index(lead_id) {
            Some(i) => i,
            None => {
                return false;
            },
        };
        proof {
            self.lemma_lead_index_unique(i as int, lead_id);
        }
        self.leads[i].research_status = status;
        self.leads[i].researched_at = Some(now);
        self.leads[i].company_profile = match profile {
            Some(p) => Some(str_of(p)),
            None => None,
        };
        proof {
            assert(final(self).leads@ == old(self).leads@.update(i as int,
                final(self).leads@[i as int]));
        }
        true
    }

    /// Writes a finished person research onto the person row.
    pub fn update_person_research(&mut self, person_id: i64, status: ResearchStatus,
        profile: Option<&str>, now: i64) -> (r: bool)
        requires
            old(self).wf(),
        ensures
            final(self).wf(),
            same_but_people(*old(self), *final(self)),
            final(self).next_person_id == old(self).next_person_id,
            r == spec_has_person(old(self).people@, person_id),
            r ==> {
                let idx = spec_person_index(old(self).people@, person_id);
                let newp = final(self).people@[idx];
                &&& final(self).people@ == old(self).people@.update(idx, newp)
                &&& newp.research_status == status
                &&& newp.researched_at == Some(now)
                &&& match (newp.person_profile, profile) {
                    (Some(a), Some(b)) => a@ == b@,
                    (None, None) => true,
                    _ => false,
                }
                &&& newp == Person {
                    research_status: newp.research_status,
                    researched_at: newp.researched_at,
                    person_profile: newp.person_profile,
                    ..old(self).people@[idx]
                }
            },
            !r ==> *final(self) == *old(self),
    {
        let i = match self.find_person_index(person_id) {
            Some(i) => i,
            None => {
                return false;
            },
        };
        proof {
            self.lemma_person_index_unique(i as int, person_id);
        }
        self.people[i].research_status = status;
        self.people[i].researched_at = Some(now);
        self.people[i].person_profile = match profile {
            Some(p) => Some(str_of(p)),
            None => None,
        };
        proof {
            assert(final(self).people@ == old(self).people@.update(i as int,
                final(self).people@[i as int]));
        }
        true
    }

    /// Writes generated conversation topics onto the person row.
    pub fn update_person_conversation(&mut self, person_id: i64, topics: Option<&str>,
        now: i64) -> (r: bool)
        requires
            old(self).wf(),
        ensures
            final(self).wf(),
            same_but_people(*old(self), *final(self)),
            final(self).next_person_id == old(self).next_person_id,
            r == spec_has_person(old(self).people@, person_id),
            r ==> {
                let idx = spec_person_index(old(self).people@, person_id);
                let newp = final(self).people@[idx];
                &&& final(self).people@ == old(self).people@.update(idx, newp)
                &&& newp.conversation_generated_at == Some(now)
                &&& match (newp.conversation_topics, topics) {
                    (Some(a), Some(b)) => a@ == b@,
                    (None, None) => true,
                    _ => false,
                }
                &&& newp == Person {
                    conversation_topics: newp.conversation_topics,
                    conversation_generated_at: newp.conversation_generated_at,
                    ..old(self).people@[idx]
                }
            },
            !r ==> *final(self) == *old(self),
    {
        let i = match self.find_person_index(person_id) {
            Some(i) => i,
            None => {
                return false;
            },
        };
        proof {
            self.lemma_person_index_unique(i as int, person_id);
        }
        self.people[i].conversation_topics = match topics {
            Some(t) => Some(str_of(t)),
            None => None,
        };
        self.people[i].conversation_generated_at = Some(now);
        proof {
            assert(final(self).people@ == old(self).people@.update(i as int,
                final(self).people@[i as int]));
        }
        true
    }

    /// Fills only the still-empty columns of a lead with the reported facts.
    pub fn enrich_lead(&mut self, lead_id: i64, e: &LeadEnrichment) -> (r: usize)
        requires
            old(self).wf(),
        ensures
            final(self).wf(),
            same_but_leads(*old(self), *final(self)),
            (r == 1) == spec_has_lead(old(self).leads@, lead_id),
            r == 1 ==> {
                let idx = spec_lead_index(old(self).leads@, lead_id);
                &&& final(self).leads@ == old(self).leads@.update(idx, final(self).leads@[idx])
                &&& spec_lead_enriched(old(self).leads@[idx], final(self).leads@[idx], *e)
            },
            r != 1 ==> r == 0 && *final(self) == *old(self),
    {
        let i = match self.find_lead_index(lead_id) {
            Some(i) => i,
            None => {
                return 0;
            },
        };
        proof {
            self.lemma_lead_index_unique(i as int, lead_id);
        }
        self.leads[i].website = coalesce_string(&self.leads[i].website, &e.website);
        self.leads[i].industry = coalesce_string(&self.leads[i].industry, &e.industry);
        self.leads[i].sub_industry = coalesce_string(&self.leads[i].sub_industry, &e.sub_industry);
        self.leads[i].employees = coalesce_i64(&self.leads[i].employees, &e.employees);
        self.leads[i].employee_range = coalesce_string(&self.leads[i].employee_range,
            &e.employee_range);
        self.leads[i].revenue = coalesce_i64(&self.leads[i].revenue, &e.revenue);
        self.leads[i].revenue_range = coalesce_string(&self.leads[i].revenue_range,
            &e.revenue_range);
        self.leads[i].company_linkedin_url = coalesce_string(&self.leads[i].company_linkedin_url,
            &e.company_linkedin_url);
        self.leads[i].city = coalesce_string(&self.leads[i].city, &e.city);
        self.leads[i].state = coalesce_string(&self.leads[i].state, &e.state);
        self.leads[i].country = coalesce_string(&self.leads[i].country, &e.country);
        proof {
            assert(final(self).leads@ == old(self).leads@.update(i as int,
                final(self).leads@[i as int]));
        }
        1
    }

    /// Fills only the still-empty columns of a person with the reported facts.
    pub fn enrich_person(&mut self, person_id: i64, e: &PersonEnrichment) -> (r: usize)
        requires
            old(self).wf(),
        ensures
            final(self).wf(),
            same_but_people(*old(self), *final(self)),
            final(self).next_person_id == old(self).next_person_id,
            (r == 1) == spec_has_person(old(self).people@, person_id),
            r == 1 ==> {
                let idx = spec_person_index(old(self).people@, person_id);
                &&& final(self).people@ == old(self).people@.update(idx, final(self).people@[idx])
                &&& spec_person_enriched(old(self).people@[idx], final(self).people@[idx], *e)
            },
            r != 1 ==> r == 0 && *final(self) == *old(self),
    {
        let i = match self.find_person_index(person_id) {
            Some(i) => i,
            None => {
                return 0;
            },
        };
        proof {
            self.lemma_person_index_unique(i as int, person_id);
        }
        self.people[i].email = coalesce_string(&self.people[i].email, &e.email);
        self.people[i].title = coalesce_string(&self.people[i].title, &e.title);
        self.people[i].management_level = coalesce_string(&self.people[i].management_level,
            &e.management_level);
        self.people[i].linkedin_url = coalesce_string(&self.people[i].linkedin_url,
            &e.linkedin_url);
        self.people[i].year_joined = coalesce_i64(&self.people[i].year_joined, &e.year_joined);
        proof {
            assert(final(self).people@ == old(self).people@.update(i as int,
                final(self).people@[i as int]));
        }
        1
    }

    /// Replaces the lead's people with the freshly researched list: the old
    /// rows are deleted, the new ones inserted with fresh ids. All or
    /// nothing: on refusal the store is unchanged.
    pub fn replace_people_for_lead(&mut self, lead_id: i64, people: &Vec<ParsedPersonData>,
        now: i64) -> (r: Result<(), StoreError>)
        requires
            old(self).wf(),
        ensures
            final(self).wf(),
            same_but_people(*old(self), *final(self)),
            match r {
                Ok(()) => {
                    let kept = old(self).people@.filter(|p: Person| p.lead_id != Some(lead_id));
                    &&& final(self).people@.len() == kept.len() + people@.len()
                    &&& forall|k: int| 0 <= k < kept.len() ==> final(self).people@[k] == kept[k]
                    &&& forall|k: int|
                        0 <= k < people@.len() ==> spec_person_from_parsed(
                            people@[k],
                            #[trigger] final(self).people@[kept.len() + k],
                            lead_id,
                            now,
                        )
                },
                Err(e) => {
                    &&& e == StoreError::Constraint
                    &&& *final(self) == *old(self)
                    &&& (people@.len() >= 0x7fff_ffff_ffff_ffff || old(self).next_person_id
                        + people@.len() > 0x7fff_ffff_ffff_ffff)
                },
            },
    {
        // Make sure every new row can get a fresh id before touching anything.
        if people.len() as u64 >= 0x7fff_ffff_ffff_ffffu64 {
            return Err(StoreError::Constraint);
        }
        let n_i64: i64 = people.len() as i64;
        if self.next_person_id.checked_add(n_i64).is_none() {
            return Err(StoreError::Constraint);
        }
        // Delete the lead's current people.
        let ghost orig = self.people@;
        let ghost mut p: int = 0;
        let mut i: usize = 0;
        while i < self.people.len()
            invariant
                0 <= p <= orig.len(),
                i == orig.subrange(0, p).filter(|q: Person| q.lead_id != Some(lead_id)).len(),
                self.people@ =~= orig.subrange(0, p).filter(
                    |q: Person| q.lead_id != Some(lead_id),
                ) + orig.subrange(p, orig.len() as int),
                same_but_people(*old(self), *self),
                self.next_person_id == old(self).next_person_id,
                orig == old(self).people@,
            decreases self.people@.len() - i,
        {
            proof {
                assert(self.people@[i as int] == orig[p]);
                lemma_filter_step(orig, |q: Person| q.lead_id != Some(lead_id), p);
            }
            let matches_lead = match self.people[i].lead_id {
                Some(l) => l == lead_id,
                None => false,
            };
            if !matches_lead {
                i += 1;
                proof {
                    p = p + 1;
                    assert(self.people@ =~= orig.subrange(0, p).filter(
                        |q: Person| q.lead_id != Some(lead_id),
                    ) + orig.subrange(p, orig.len() as int));
                }
            } else {
                self.people.remove(i);
                proof {
                    p = p + 1;
                    assert(self.people@ =~= orig.subrange(0, p).filter(
                        |q: Person| q.lead_id != Some(lead_id),
                    ) + orig.subrange(p, orig.len() as int));
                }
            }
        }
        proof {
            assert(p == orig.len());
            assert(orig.subrange(0, orig.len() as int) == orig);
            assert(self.people@ =~= orig.filter(|q: Person| q.lead_id != Some(lead_id)));
            lemma_filter_distinct_keys(orig, |q: Person| q.lead_id != Some(lead_id),
                |q: Person| q.id);
            lemma_filter_elements(orig, |q: Person| q.lead_id != Some(lead_id),
                |q: Person| q.id < old(self).next_person_id);
        }
        // Insert the new rows.
        let ghost kept = self.people@;
        let mut k: usize = 0;
        while k < people.len()
            invariant
                old(self).wf(),
                k <= people@.len(),
                old(self).next_person_id + people@.len() <= i64::MAX,
                self.next_person_id == old(self).next_person_id + k,
                self.people@.len() == kept.len() + k,
                forall|m: int| 0 <= m < kept.len() ==> self.people@[m] == kept[m],
                forall|m: int|
                    0 <= m < k ==> spec_person_from_parsed(
                        people@[m],
                        #[trigger] self.people@[kept.len() + m],
                        lead_id,
                        now,
                    ),
                forall|m: int|
                    0 <= m < kept.len() ==> (#[trigger] kept[m]).id < old(self).next_person_id,
                forall|m: int|
                    kept.len() <= m < self.people@.len() ==> (#[trigger] self.people@[m]).id
                        == old(self).next_person_id + (m - kept.len()),
                forall|m1: int, m2: int|
                    #![trigger kept[m1].id, kept[m2].id]
                    0 <= m1 < m2 < kept.len() ==> kept[m1].id != kept[m2].id,
                same_but_people(*old(self), *self),
            decreases people@.len() - k,
        {
            let id = self.next_person_id;
            self.next_person_id = self.next_person_id + 1;
            let src = &people[k];
            self.people.push(Person {
                id,
                lead_id: Some(lead_id),
                first_name: src.first_name.clone(),
                last_name: src.last_name.clone(),
                email: clone_opt_string(&src.email),
                title: clone_opt_string(&src.title),
                management_level: clone_opt_string(&src.management_level),
                linkedin_url: clone_opt_string(&src.linkedin_url),
                year_joined: src.year_joined,
                person_profile: None,
                research_status: ResearchStatus::Pending,
                researched_at: None,
                user_status: String::from_str("new"),
                conversation_topics: None,
                conversation_generated_at: None,
                created_at: now,
            });
            k += 1;
        }
        proof {
            assert forall|m1: int, m2: int| 0 <= m1 < m2 < self.people@.len() implies (
                #[trigger] self.people@[m1]).id != (#[trigger] self.people@[m2]).id by {
                if m2 < kept.len() {
                    assert(kept[m1].id != kept[m2].id);
                } else if m1 < kept.len() {
                    assert(kept[m1].id < old(self).next_person_id);
                    assert(self.people@[m2].id >= old(self).next_person_id);
                }
            }
            assert forall|m: int| 0 <= m < self.people@.len() implies (
                #[trigger] self.people@[m]).id < self.next_person_id by {
                if m < kept.len() {
                    assert(kept[m].id < old(self).next_person_id);
                }
            }
            assert(people_wf(self.people@, self.next_person_id));
        }
        Ok(())
    }
}

pub open spec fn spec_has_score(scores: Seq<LeadScore>, lead_id: i64) -> bool {
    exists|i: int| 0 <= i < scores.len() && scores[i].lead_id == lead_id
}

pub open spec fn spec_score_index(scores: Seq<LeadScore>, lead_id: i64) -> int {
    choose|i: int| 0 <= i < scores.len() && scores[i].lead_id == lead_id
}

impl Store {
    fn find_score_index(&self, lead_id: i64) -> (r: Option<usize>)
        ensures
            match r {
                Some(i) => i < self.lead_scores@.len() && self.lead_scores@[i as int].lead_id
                    == lead_id,
                None => !spec_has_score(self.lead_scores@, lead_id),
            },
    {
        let mut i: usize = 0;
        while i < self.lead_scores.len()
            invariant
                i <= self.lead_scores@.len(),
                forall|k: int| 0 <= k < i ==> self.lead_scores@[k].lead_id != lead_id,
            decreases self.lead_scores@.len() - i,
        {
            if self.lead_scores[i].lead_id == lead_id {
                return Some(i);
            }
            i += 1;
        }
        None
    }

    pub proof fn lemma_score_index_unique(self, i: int, lead_id: i64)
        requires
            scores_wf(self.lead_scores@, self.next_score_id),
            0 <= i < self.lead_scores@.len(),
            self.lead_scores@[i].lead_id == lead_id,
        ensures
            spec_has_score(self.lead_scores@, lead_id),
            spec_score_index(self.lead_scores@, lead_id) == i,
    {
        assert(spec_has_score(self.lead_scores@, lead_id));
        let j = spec_score_index(self.lead_scores@, lead_id);
        if i < j {
            assert(self.lead_scores@[i].lead_id != self.lead_scores@[j].lead_id);
        } else if j < i {
            assert(self.lead_scores@[j].lead_id != self.lead_scores@[i].lead_id);
        }
    }

    /// The score row of a lead, if one exists; there is at most one.
    pub fn get_lead_score(&self, lead_id: i64) -> (r: Option<&LeadScore>)
        requires
            self.wf(),
        ensures
            match r {
                Some(s) => spec_has_score(self.lead_scores@, lead_id)
                    && *s == self.lead_scores@[spec_score_index(self.lead_scores@, lead_id)],
                None => !spec_has_score(self.lead_scores@, lead_id),
            },
    {
        match self.find_score_index(lead_id) {
            Some(i) => {
                proof {
                    self.lemma_score_index_unique(i as int, lead_id);
                }
                Some(&self.lead_scores[i])
            },
            None => None,
        }
    }

    /// Removes the lead's score row if it has one.
    pub fn delete_lead_score(&mut self, lead_id: i64)
        requires
            old(self).wf(),
        ensures
            final(self).wf(),
            same_but_scores(*old(self), *final(self)),
            final(self).next_score_id == old(self).next_score_id,
            final(self).lead_scores@ == old(self).lead_scores@.filter(
                |s: LeadScore| s.lead_id != lead_id,
            ),
    {
        let ghost orig = self.lead_scores@;
        let ghost mut p: int = 0;
        let mut i: usize = 0;
        while i < self.lead_scores.len()
            invariant
                0 <= p <= orig.len(),
                i == orig.subrange(0, p).filter(|s: LeadScore| s.lead_id != lead_id).len(),
                self.lead_scores@ =~= orig.subrange(0, p).filter(
                    |s: LeadScore| s.lead_id != lead_id,
                ) + orig.subrange(p, orig.len() as int),
                same_but_scores(*old(self), *self),
                self.next_score_id == old(self).next_score_id,
                orig == old(self).lead_scores@,
            decreases self.lead_scores@.len() - i,
        {
            proof {
                assert(self.lead_scores@[i as int] == orig[p]);
                lemma_filter_step(orig, |s: LeadScore| s.lead_id != lead_id, p);
            }
            if self.lead_scores[i].lead_id != lead_id {
                i += 1;
                proof {
                    p = p + 1;
                    assert(self.lead_scores@ =~= orig.subrange(0, p).filter(
                        |s: LeadScore| s.lead_id != lead_id,
                    ) + orig.subrange(p, orig.len() as int));
                }
            } else {
                self.lead_scores.remove(i);
                proof {
                    p = p + 1;
                    assert(self.lead_scores@ =~= orig.subrange(0, p).filter(
                        |s: LeadScore| s.lead_id != lead_id,
                    ) + orig.subrange(p, orig.len() as int));
                }
            }
        }
        proof {
            assert(p == orig.len());
            assert(orig.subrange(0, orig.len() as int) == orig);
            assert(self.lead_scores@ =~= orig.filter(|s: LeadScore| s.lead_id != lead_id));
            lemma_filter_distinct_keys(orig, |s: LeadScore| s.lead_id != lead_id,
                |s: LeadScore| s.lead_id);
            lemma_filter_elements(orig, |s: LeadScore| s.lead_id != lead_id,
                |s: LeadScore| s.id < old(self).next_score_id);
        }
    }

    /// Replaces the lead's score: any previous row is deleted, the new one
    /// inserted with a fresh id.
    pub fn save_lead_score(&mut self, lead_id: i64, config_id: i64, passes_requirements: bool,
        requirement_results: &str, total_score: i64, score_breakdown: &str, tier: &str,
        scoring_notes: Option<&str>, now: i64) -> (r: Result<i64, StoreError>)
        requires
            old(self).wf(),
        ensures
            final(self).wf(),
            same_but_scores(*old(self), *final(self)),
            match r {
                Ok(id) => {
                    let kept = old(self).lead_scores@.filter(|s: LeadScore| s.lead_id != lead_id);
                    &&& id == old(self).next_score_id
                    &&& final(self).lead_scores@.len() == kept.len() + 1
                    &&& forall|k: int|
                        0 <= k < kept.len() ==> final(self).lead_scores@[k] == kept[k]
                    &&& {
                        let s = final(self).lead_scores@.last();
                        &&& s.id == id
                        &&& s.lead_id == lead_id
                        &&& s.config_id == config_id
                        &&& s.passes_requirements == passes_requirements
                        &&& s.requirement_results@ == requirement_results@
                        &&& s.total_score == total_score
                        &&& s.score_breakdown@ == score_breakdown@
                        &&& s.tier@ == tier@
                        &&& match (s.scoring_notes, scoring_notes) {
                            (Some(a), Some(b)) => a@ == b@,
                            (None, None) => true,
                            _ => false,
                        }
                        &&& s.scored_at == Some(now)
                        &&& s.created_at == now
                    }
                },
                Err(e) => {
                    &&& e == StoreError::Constraint
                    &&& *final(self) == *old(self)
                    &&& old(self).next_score_id == 0x7fff_ffff_ffff_ffff
                },
            },
    {
        if self.next_score_id == i64::MAX {
            return Err(StoreError::Constraint);
        }
        self.delete_lead_score(lead_id);
        let id = self.next_score_id;
        self.next_score_id = self.next_score_id + 1;
        self.lead_scores.push(LeadScore {
            id,
            lead_id,
            config_id,
            passes_requirements,
            requirement_results: str_of(requirement_results),
            total_score,
            score_breakdown: str_of(score_breakdown),
            tier: str_of(tier),
            scoring_notes: match scoring_notes {
                Some(s) => Some(str_of(s)),
                None => None,
            },
            scored_at: Some(now),
            created_at: now,
        });
        proof {
            let kept = old(self).lead_scores@.filter(|s: LeadScore| s.lead_id != lead_id);
            assert forall|m1: int, m2: int| 0 <= m1 < m2 < self.lead_scores@.len() implies (
                #[trigger] self.lead_scores@[m1]).lead_id != (
                #[trigger] self.lead_scores@[m2]).lead_id by {
                if m2 < kept.len() {
                    assert(kept[m1].lead_id != kept[m2].lead_id);
                } else {
                    assert(kept[m1].lead_id != lead_id);
                }
            }
            assert(scores_wf(self.lead_scores@, self.next_score_id));
        }
        Ok(id)
    }

    /// The newest active scoring configuration, if any.
    pub fn get_active_scoring_config(&self) -> (r: Option<&ScoringConfig>)
        requires
            self.wf(),
        ensures
            match r {
                Some(c) => {
                    &&& c.is_active
                    &&& self.scoring_configs@.contains(*c)
                    &&& forall|k: int|
                        0 <= k < self.scoring_configs@.len()
                            && (#[trigger] self.scoring_configs@[k]).is_active
                            ==> self.scoring_configs@[k].id <= c.id
                },
                None => forall|k: int|
                    0 <= k < self.scoring_configs@.len() ==> !(
                    #[trigger] self.scoring_configs@[k]).is_active,
            },
    {
        let mut best: Option<usize> = None;
        let mut i: usize = 0;
        while i < self.scoring_configs.len()
            invariant
                i <= self.scoring_configs@.len(),
                match best {
                    Some(b) => {
                        &&& b < i
                        &&& self.scoring_configs@[b as int].is_active
                        &&& forall|k: int|
                            0 <= k < i && (#[trigger] self.scoring_configs@[k]).is_active
                                ==> self.scoring_configs@[k].id
                                <= self.scoring_configs@[b as int].id
                    },
                    None => forall|k: int|
                        0 <= k < i ==> !(#[trigger] self.scoring_configs@[k]).is_active,
                },
            decreases self.scoring_configs@.len() - i,
        {
            if self.scoring_configs[i].is_active {
                match best {
                    Some(b) => {
                        if self.scoring_configs[i].id >= self.scoring_configs[b].id {
                            best = Some(i);
                        }
                    },
                    None => {
                        best = Some(i);
                    },
                }
            }
            i += 1;
        }
        match best {
            Some(b) => Some(&self.scoring_configs[b]),
            None => None,
        }
    }

    /// Creates a new active scoring configuration, deactivating every other.
    pub fn save_scoring_config(&mut self, name: &str, required_characteristics: &str,
        demand_signifiers: &str, tier_hot_min: i64, tier_warm_min: i64, tier_nurture_min: i64,
        now: i64) -> (r: Result<i64, StoreError>)
        requires
            old(self).wf(),
        ensures
            final(self).wf(),
            same_but_configs(*old(self), *final(self)),
            match r {
                Ok(id) => {
                    &&& id == old(self).next_config_id
                    &&& final(self).scoring_configs@.len() == old(self).scoring_configs@.len() + 1
                    &&& forall|k: int|
                        0 <= k < old(self).scoring_configs@.len()
                            ==> #[trigger] final(self).scoring_configs@[k] == (ScoringConfig {
                            is_active: false,
                            ..old(self).scoring_configs@[k]
                        })
                    &&& {
                        let c = final(self).scoring_configs@.last();
                        &&& c.id == id
                        &&& c.name@ == name@
                        &&& c.is_active
                        &&& c.required_characteristics@ == required_characteristics@
                        &&& c.demand_signifiers@ == demand_signifiers@
                        &&& c.tier_hot_min == tier_hot_min
                        &&& c.tier_warm_min == tier_warm_min
                        &&& c.tier_nurture_min == tier_nurture_min
                        &&& c.created_at == now
                        &&& c.updated_at == now
                    }
                },
                Err(e) => e == StoreError::Constraint && *final(self) == *old(self),
            },
    {
        if self.next_config_id == i64::MAX {
            return Err(StoreError::Constraint);
        }
        let mut i: usize = 0;
        while i < self.scoring_configs.len()
            invariant
                i <= self.scoring_configs@.len(),
                self.scoring_configs@.len() == old(self).scoring_configs@.len(),
                forall|k: int|
                    0 <= k < i ==> #[trigger] self.scoring_configs@[k] == (ScoringConfig {
                        is_active: false,
                        ..old(self).scoring_configs@[k]
                    }),
                forall|k: int|
                    i <= k < self.scoring_configs@.len() ==> #[trigger] self.scoring_configs@[k]
                        == old(self).scoring_configs@[k],
                same_but_configs(*old(self), *self),
                self.next_config_id == old(self).next_config_id,
            decreases self.scoring_configs@.len() - i,
        {
            self.scoring_configs[i].is_active = false;
            i += 1;
        }
        let id = self.next_config_id;
        self.next_config_id = self.next_config_id + 1;
        self.scoring_configs.push(ScoringConfig {
            id,
            name: str_of(name),
            is_active: true,
            required_characteristics: str_of(required_characteristics),
            demand_signifiers: str_of(demand_signifiers),
            tier_hot_min,
            tier_warm_min,
            tier_nurture_min,
            created_at: now,
            updated_at: now,
        });
        Ok(id)
    }

    /// The newest prompt of a given type, if one was saved.
    pub fn get_prompt_by_type(&self, prompt_type: &str) -> (r: Option<&Prompt>)
        requires
            self.wf(),
        ensures
            match r {
                Some(p) => {
                    &&& p.prompt_type@ == prompt_type@
                    &&& self.prompts@.contains(*p)
                    &&& forall|k: int|
                        0 <= k < self.prompts@.len()
                            && (#[trigger] self.prompts@[k]).prompt_type@ == prompt_type@
                            ==> self.prompts@[k].id <= p.id
                },
                None => forall|k: int|
                    0 <= k < self.prompts@.len() ==> (#[trigger] self.prompts@[k]).prompt_type@
                        != prompt_type@,
            },
    {
        let pt = str_of(prompt_type);
        let mut best: Option<usize> = None;
        let mut i: usize = 0;
        while i < self.prompts.len()
            invariant
                i <= self.prompts@.len(),
                pt@ == prompt_type@,
                match best {
                    Some(b) => {
                        &&& b < i
                        &&& self.prompts@[b as int].prompt_type@ == prompt_type@
                        &&& forall|k: int|
                            0 <= k < i && (#[trigger] self.prompts@[k]).prompt_type@
                                == prompt_type@ ==> self.prompts@[k].id
                                <= self.prompts@[b as int].id
                    },
                    None => forall|k: int|
                        0 <= k < i ==> (#[trigger] self.prompts@[k]).prompt_type@ != prompt_type@,
                },
            decreases self.prompts@.len() - i,
        {
            if self.prompts[i].prompt_type == pt {
                match best {
                    Some(b) => {
                        if self.prompts[i].id >= self.prompts[b].id {
                            best = Some(i);
                        }
                    },
                    None => {
                        best = Some(i);
                    },
                }
            }
            i += 1;
        }
        match best {
            Some(b) => Some(&self.prompts[b]),
            None => None,
        }
    }

    /// Saves a prompt of a given type as a new newest row.
    pub fn save_prompt_by_type(&mut self, prompt_type: &str, content: &str, now: i64)
        -> (r: Result<i64, StoreError>)
        requires
            old(self).wf(),
        ensures
            final(self).wf(),
            same_but_prompts(*old(self), *final(self)),
            match r {
                Ok(id) => {
                    &&& id == old(self).next_prompt_id
                    &&& final(self).prompts@ == old(self).prompts@.push(
                        final(self).prompts@.last(),
                    )
                    &&& {
                        let p = final(self).prompts@.last();
                        &&& p.id == id
                        &&& p.prompt_type@ == prompt_type@
                        &&& p.content@ == content@
                        &&& p.created_at == now
                        &&& p.updated_at == now
                    }
                },
                Err(e) => e == StoreError::Constraint && *final(self) == *old(self),
            },
    {
        if self.next_prompt_id == i64::MAX {
            return Err(StoreError::Constraint);
        }
        let id = self.next_prompt_id;
        self.next_prompt_id = self.next_prompt_id + 1;
        self.prompts.push(Prompt {
            id,
            prompt_type: str_of(prompt_type),
            content: str_of(content),
            created_at: now,
            updated_at: now,
        });
        Ok(id)
    }

    /// The single settings row.
    pub fn get_settings(&self) -> (r: Settings)
        ensures
            r == self.settings,
    {
        self.settings.clone()
    }

    /// Overwrites the single settings row.
    pub fn update_settings(&mut self, model: &str, use_chrome: bool, use_gateway: bool,
        now: i64)
        requires
            old(self).wf(),
        ensures
            final(self).wf(),
            final(self).settings.model@ == model@,
            final(self).settings.use_chrome == use_chrome,
            final(self).settings.use_gateway == use_gateway,
            final(self).settings.theme == old(self).settings.theme,
            final(self).settings.updated_at == now,
            *final(self) == (Store { settings: final(self).settings, ..*old(self) }),
    {
        self.settings = Settings {
            model: str_of(model),
            use_chrome,
            use_gateway,
            theme: self.settings.theme.clone(),
            updated_at: now,
        };
    }
}

impl Store {
    /// The single company-profile row, if the user's own company was saved.
    pub fn get_company_profile(&self) -> (r: Option<&CompanyProfile>)
        ensures
            match r {
                Some(p) => self.company_profile == Some(*p),
                None => self.company_profile is None,
            },
    {
        self.company_profile.as_ref()
    }

    /// The analysis fields a profile save writes, each falling back to the
    /// previous value, or to nothing, where no new value is given.
    pub open spec fn spec_profile_field(arg: Option<Seq<char>>, prev: Option<Seq<char>>,
        written: Seq<char>) -> bool {
        match arg {
            Some(v) => written == v,
            None => match prev {
                Some(p) => written == p,
                None => written.len() == 0,
            },
        }
    }

    /// Creates or refreshes the single company-profile row: the names are
    /// taken as given; each analysis field keeps its previous value unless a
    /// new one is given; the status likewise.
    pub fn save_company_profile(&mut self, company_name: &str, product_name: &str,
        website: &str, target_audience: Option<&str>, usps: Option<&str>,
        marketing_narrative: Option<&str>, sales_narrative: Option<&str>,
        competitors: Option<&str>, market_insights: Option<&str>, raw_analysis: Option<&str>,
        research_status: Option<ResearchStatus>, now: i64)
        requires
            old(self).wf(),
        ensures
            final(self).wf(),
            same_but_company_profile(*old(self), *final(self)),
            final(self).company_profile matches Some(p) && {
                let prev = old(self).company_profile;
                let prev_field = |f: spec_fn(CompanyProfile) -> String| match prev {
                    Some(q) => Some(f(q)@),
                    None => None,
                };
                &&& p.company_name@ == company_name@
                &&& p.product_name@ == product_name@
                &&& p.website@ == website@
                &&& Self::spec_profile_field(
                    match target_audience { Some(v) => Some(v@), None => None },
                    prev_field(|q: CompanyProfile| q.target_audience),
                    p.target_audience@,
                )
                &&& Self::spec_profile_field(
                    match usps { Some(v) => Some(v@), None => None },
                    prev_field(|q: CompanyProfile| q.usps),
                    p.usps@,
                )
                &&& Self::spec_profile_field(
                    match marketing_narrative { Some(v) => Some(v@), None => None },
                    prev_field(|q: CompanyProfile| q.marketing_narrative),
                    p.marketing_narrative@,
                )
                &&& Self::spec_profile_field(
                    match sales_narrative { Some(v) => Some(v@), None => None },
                    prev_field(|q: CompanyProfile| q.sales_narrative),
                    p.sales_narrative@,
                )
                &&& Self::spec_profile_field(
                    match competitors { Some(v) => Some(v@), None => None },
                    prev_field(|q: CompanyProfile| q.competitors),
                    p.competitors@,
                )
                &&& Self::spec_profile_field(
                    match market_insights { Some(v) => Some(v@), None => None },
                    prev_field(|q: CompanyProfile| q.market_insights),
                    p.market_insights@,
                )
                &&& Self::spec_profile_field(
                    match raw_analysis { Some(v) => Some(v@), None => None },
                    prev_field(|q: CompanyProfile| q.raw_analysis),
                    p.raw_analysis@,
                )
                &&& p.research_status == (match research_status {
                    Some(s) => s,
                    None => match prev {
                        Some(q) => q.research_status,
                        None => ResearchStatus::Pending,
                    },
                })
                &&& p.researched_at == (if research_status == Some(ResearchStatus::Completed) {
                    Some(now)
                } else {
                    match prev {
                        Some(q) => q.researched_at,
                        None => None,
                    }
                })
                &&& p.updated_at == now
            },
    {
        let prev = self.company_profile.take();
        let field = |arg: Option<&str>, prev_val: Option<String>| -> (w: String)
            ensures
                Self::spec_profile_field(
                    match arg { Some(v) => Some(v@), None => None },
                    match prev_val { Some(p) => Some(p@), None => None },
                    w@,
                ),
            {
                match arg {
                    Some(v) => str_of(v),
                    None => match prev_val {
                        Some(p) => p,
                        None => String::new(),
                    },
                }
            };
        let status = match research_status {
            Some(s) => s,
            None => match &prev {
                Some(q) => q.research_status,
                None => ResearchStatus::Pending,
            },
        };
        let researched_at = if matches!(research_status, Some(ResearchStatus::Completed)) {
            Some(now)
        } else {
            match &prev {
                Some(q) => q.researched_at,
                None => None,
            }
        };
        let (created_at, id) = match &prev {
            Some(q) => (q.created_at, q.id),
            None => (now, 1),
        };
        let (p_ta, p_usps, p_mn, p_sn, p_comp, p_mi, p_raw) = match prev {
            Some(q) => (Some(q.target_audience), Some(q.usps), Some(q.marketing_narrative),
                Some(q.sales_narrative), Some(q.competitors), Some(q.market_insights),
                Some(q.raw_analysis)),
            None => (None, None, None, None, None, None, None),
        };
        self.company_profile = Some(CompanyProfile {
            id,
            company_name: str_of(company_name),
            product_name: str_of(product_name),
            website: str_of(website),
            target_audience: field(target_audience, p_ta),
            usps: field(usps, p_usps),
            marketing_narrative: field(marketing_narrative, p_mn),
            sales_narrative: field(sales_narrative, p_sn),
            competitors: field(competitors, p_comp),
            market_insights: field(market_insights, p_mi),
            raw_analysis: field(raw_analysis, p_raw),
            research_status: status,
            researched_at,
            created_at,
            updated_at: now,
        });
    }

    /// Sets the company-profile row's research status; reports whether a
    /// row existed.
    pub fn update_company_profile_research_status(&mut self, status: ResearchStatus)
        -> (r: bool)
        requires
            old(self).wf(),
        ensures
            final(self).wf(),
            same_but_company_profile(*old(self), *final(self)),
            r == (old(self).company_profile is Some),
            r ==> (final(self).company_profile matches Some(p)
                && p == (CompanyProfile { research_status: status, ..old(self).company_profile->0 })),
            !r ==> *final(self) == *old(self),
    {
        match self.company_profile.take() {
            Some(mut p) => {
                p.research_status = status;
                self.company_profile = Some(p);
                true
            },
            None => false,
        }
    }
}

/// Everything but the company-profile row is untouched.
pub open spec fn same_but_company_profile(a: Store, b: Store) -> bool {
    &&& a.jobs == b.jobs
    &&& a.logs == b.logs
    &&& a.leads == b.leads
    &&& a.people == b.people
    &&& a.prompts == b.prompts
    &&& a.scoring_configs == b.scoring_configs
    &&& a.lead_scores == b.lead_scores
    &&& a.settings == b.settings
    &&& a.next_log_id == b.next_log_id
    &&& a.next_lead_id == b.next_lead_id
    &&& a.next_person_id == b.next_person_id
    &&& a.next_prompt_id == b.next_prompt_id
    &&& a.next_config_id == b.next_config_id
    &&& a.next_score_id == b.next_score_id
}

/// All tables other than the scores and their id counter are untouched.
pub open spec fn same_but_scores(a: Store, b: Store) -> bool {
    &&& a.company_profile == b.company_profile
    &&& a.jobs == b.jobs
    &&& a.logs == b.logs
    &&& a.leads == b.leads
    &&& a.people == b.people
    &&& a.prompts == b.prompts
    &&& a.scoring_configs == b.scoring_configs
    &&& a.settings == b.settings
    &&& a.next_log_id == b.next_log_id
    &&& a.next_lead_id == b.next_lead_id
    &&& a.next_person_id == b.next_person_id
    &&& a.next_prompt_id == b.next_prompt_id
    &&& a.next_config_id == b.next_config_id
}

/// All tables other than the configurations and their id counter are untouched.
pub open spec fn same_but_configs(a: Store, b: Store) -> bool {
    &&& a.company_profile == b.company_profile
    &&& a.jobs == b.jobs
    &&& a.logs == b.logs
    &&& a.leads == b.leads
    &&& a.people == b.people
    &&& a.prompts == b.prompts
    &&& a.lead_scores == b.lead_scores
    &&& a.settings == b.settings
    &&& a.next_log_id == b.next_log_id
    &&& a.next_lead_id == b.next_lead_id
    &&& a.next_person_id == b.next_person_id
    &&& a.next_prompt_id == b.next_prompt_id
    &&& a.next_score_id == b.next_score_id
}

/// All tables other than the prompts and their id counter are untouched.
pub open spec fn same_but_prompts(a: Store, b: Store) -> bool {
    &&& a.company_profile == b.company_profile
    &&& a.jobs == b.jobs
    &&& a.logs == b.logs
    &&& a.leads == b.leads
    &&& a.people == b.people
    &&& a.scoring_configs == b.scoring_configs
    &&& a.lead_scores == b.lead_scores
    &&& a.settings == b.settings
    &&& a.next_log_id == b.next_log_id
    &&& a.next_lead_id == b.next_lead_id
    &&& a.next_person_id == b.next_person_id
    &&& a.next_config_id == b.next_config_id
    &&& a.next_score_id == b.next_score_id
}

/// All tables other than the leads are untouched.
pub open spec fn same_but_leads(a: Store, b: Store) -> bool {
    &&& a.company_profile == b.company_profile
    &&& a.jobs == b.jobs
    &&& a.logs == b.logs
    &&& a.people == b.people
    &&& a.prompts == b.prompts
    &&& a.scoring_configs == b.scoring_configs
    &&& a.lead_scores == b.lead_scores
    &&& a.settings == b.settings
    &&& a.next_log_id == b.next_log_id
    &&& a.next_lead_id == b.next_lead_id
    &&& a.next_person_id == b.next_person_id
    &&& a.next_prompt_id == b.next_prompt_id
    &&& a.next_config_id == b.next_config_id
    &&& a.next_score_id == b.next_score_id
}

/// All tables other than the people and their id counter are untouched.
pub open spec fn same_but_people(a: Store, b: Store) -> bool {
    &&& a.company_profile == b.company_profile
    &&& a.jobs == b.jobs
    &&& a.logs == b.logs
    &&& a.leads == b.leads
    &&& a.prompts == b.prompts
    &&& a.scoring_configs == b.scoring_configs
    &&& a.lead_scores == b.lead_scores
    &&& a.settings == b.settings
    &&& a.next_log_id == b.next_log_id
    &&& a.next_lead_id == b.next_lead_id
    &&& a.next_prompt_id == b.next_prompt_id
    &&& a.next_config_id == b.next_config_id
    &&& a.next_score_id == b.next_score_id
}

/// All tables other than jobs and logs are untouched.
pub open spec fn same_but_jobs_and_logs(a: Store, b: Store) -> bool {
    &&& a.company_profile == b.company_profile
    &&& a.leads == b.leads
    &&& a.people == b.people
    &&& a.prompts == b.prompts
    &&& a.scoring_configs == b.scoring_configs
    &&& a.lead_scores == b.lead_scores
    &&& a.settings == b.settings
    &&& a.next_log_id == b.next_log_id
    &&& a.next_lead_id == b.next_lead_id
    &&& a.next_person_id == b.next_person_id
    &&& a.next_prompt_id == b.next_prompt_id
    &&& a.next_config_id == b.next_config_id
    &&& a.next_score_id == b.next_score_id
}

/// Only the log table may differ; even the job rows are already fixed.
pub open spec fn same_but_logs_and_jobs_fixed(a: Store, b: Store) -> bool {
    &&& a.company_profile == b.company_profile
    &&& a.leads == b.leads
    &&& a.people == b.people
    &&& a.prompts == b.prompts
    &&& a.scoring_configs == b.scoring_configs
    &&& a.lead_scores == b.lead_scores
    &&& a.settings == b.settings
    &&& a.next_log_id == b.next_log_id
    &&& a.next_lead_id == b.next_lead_id
    &&& a.next_person_id == b.next_person_id
    &&& a.next_prompt_id == b.next_prompt_id
    &&& a.next_config_id == b.next_config_id
    &&& a.next_score_id == b.next_score_id
}

/// All tables other than the log rows and their id counter are untouched.
pub open spec fn same_but_logs(a: Store, b: Store) -> bool {
    &&& a.company_profile == b.company_profile
    &&& a.jobs == b.jobs
    &&& a.leads == b.leads
    &&& a.people == b.people
    &&& a.prompts == b.prompts
    &&& a.scoring_configs == b.scoring_configs
    &&& a.lead_scores == b.lead_scores
    &&& a.settings == b.settings
    &&& a.next_lead_id == b.next_lead_id
    &&& a.next_person_id == b.next_person_id
    &&& a.next_prompt_id == b.next_prompt_id
    &&& a.next_config_id == b.next_config_id
    &&& a.next_score_id == b.next_score_id
}

} // verus!
