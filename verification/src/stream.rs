use vstd::prelude::*;
use vstd::string::StringExecFns;
use crate::events::JobLogsAppendedPayload;
use crate::jsonio::{ContentBlockInfo, EventFields, extract_event_fields, extract_message_blocks,
    message_blocks_of, stream_event_fields};
use crate::schema::{Job, clone_opt_string};
use crate::store::{BatchLogEntry, Store, spec_batch_appended, spec_has_job, spec_job_index,
    str_of, same_but_jobs, same_but_logs};
use crate::textutil::{opt_string_is, str_eq};
use vstd::string::StringSliceAdditionalSpecFns;

verus! {

broadcast use vstd::string::group_string_axioms;

/// Bytes each stream may keep in memory; overflow is dropped and flagged.
pub const MAX_ACCUMULATED_OUTPUT_SIZE: usize = 10 * 1024 * 1024;

/// Buffered log lines that force a flush to the store.
pub const LOG_BUFFER_FLUSH_SIZE: usize = 20;

/// Milliseconds since the last flush that force one on the next line.
pub const LOG_BUFFER_FLUSH_INTERVAL_MS: i64 = 500;

/// Upper bound on the millisecond clock values the processor accepts.
pub const MS_CLOCK_LIMIT: i64 = 0x4000_0000_0000_0000;

/// Which of the child's two output streams a line arrived on.
#[derive(Debug, Clone, Copy, PartialEq, Eq, Structural)]
pub enum StreamSource {
    Stdout,
    Stderr,
}

impl StreamSource {
    pub fn as_str(self) -> (r: &'static str)
        ensures
            r@ == self.spec_str(),
    {
        match self {
            StreamSource::Stdout => "stdout",
            StreamSource::Stderr => "stderr",
        }
    }

    pub open spec fn spec_str(self) -> Seq<char> {
        match self {
            StreamSource::Stdout => "stdout"@,
            StreamSource::Stderr => "stderr"@,
        }
    }
}

/// Counters for one stream: every byte and line that arrived, and whether
/// the in-memory copy had to drop anything.
#[derive(Debug, Clone, Copy, PartialEq, Eq, Structural)]
pub struct StreamStats {
    pub total_bytes: usize,
    pub total_lines: usize,
    pub truncated: bool,
}

/// One classified line waiting for the next batch flush.
#[derive(Debug)]
pub struct BufferedLogEntry {
    pub job_id: String,
    pub source: String,
    pub log_type: String,
    pub content: String,
    pub tool_name: Option<String>,
    pub sequence: i64,
}

impl BufferedLogEntry {
    /// The persisted form of this buffered line.
    pub fn to_batch_entry(&self) -> (r: BatchLogEntry)
        ensures
            r == spec_to_batch(*self),
    {
        BatchLogEntry {
            job_id: self.job_id.clone(),
            log_type: self.log_type.clone(),
            content: self.content.clone(),
            tool_name: clone_opt_string(&self.tool_name),
            sequence: self.sequence,
            source: self.source.clone(),
        }
    }
}

pub open spec fn spec_to_batch(e: BufferedLogEntry) -> BatchLogEntry {
    BatchLogEntry {
        job_id: e.job_id,
        log_type: e.log_type,
        content: e.content,
        tool_name: e.tool_name,
        sequence: e.sequence,
        source: e.source,
    }
}

/// What the supervising task hands the completion handler once the child
/// has exited and both streams are drained.
#[derive(Debug)]
pub struct CompletionContext {
    pub job_id: String,
    pub success: bool,
    pub exit_code: Option<i32>,
    pub stdout_stats: StreamStats,
    pub stderr_stats: StreamStats,
    pub accumulated_stdout: String,
    pub accumulated_stderr: String,
}

/// The push event forwarded for every stream line and every admission step.
#[derive(Debug)]
pub struct StreamEvent {
    pub job_id: String,
    pub event_type: String,
    pub content: String,
    pub timestamp: i64,
}

impl Clone for StreamEvent {
    fn clone(&self) -> (r: Self)
        ensures
            r == *self,
    {
        StreamEvent {
            job_id: self.job_id.clone(),
            event_type: self.event_type.clone(),
            content: self.content.clone(),
            timestamp: self.timestamp,
        }
    }
}

/// The classification table for stdout lines, over the line's decoded
/// fields: worker events map onto the store's log types.
pub open spec fn spec_log_type(fields: Option<EventFields>) -> Seq<char> {
    match fields {
        None => "info"@,
        Some(f) => match f.event_type {
            None => "info"@,
            Some(t) => if t@ == "system"@ {
                "system"@
            } else if t@ == "assistant"@ {
                "assistant"@
            } else if t@ == "user"@ {
                "tool_result"@
            } else if t@ == "result"@ {
                if f.is_error == Some(true) {
                    "error"@
                } else {
                    "info"@
                }
            } else if t@ == "error"@ {
                "error"@
            } else if t@ == "content_block_start"@ || t@ == "content_block_delta"@ {
                "assistant"@
            } else {
                "info"@
            },
        },
    }
}

/// The name of the first `tool_use` block, if any block is one.
pub open spec fn spec_tool_from_blocks(blocks: Seq<ContentBlockInfo>) -> Option<String>
    decreases blocks.len(),
{
    if blocks.len() == 0 {
        None
    } else if blocks[0].block_type matches Some(t) && t@ == "tool_use"@ {
        blocks[0].name
    } else {
        spec_tool_from_blocks(blocks.drop_first())
    }
}

/// The tool name a stdout line carries: for assistant events the first
/// `tool_use` block of the message, for a block start the block's own name.
pub open spec fn spec_tool_name(fields: Option<EventFields>, blocks: Seq<ContentBlockInfo>)
    -> Option<String> {
    match fields {
        None => None,
        Some(f) => match f.event_type {
            None => None,
            Some(t) => if t@ == "assistant"@ {
                spec_tool_from_blocks(blocks)
            } else if t@ == "content_block_start"@ {
                f.content_block_name
            } else {
                None
            },
        },
    }
}

/// Scans the decoded content blocks for the first `tool_use` one.
fn find_tool_use(blocks: &Vec<ContentBlockInfo>) -> (r: Option<String>)
    ensures
        r == spec_tool_from_blocks(blocks@),
{
    proof {
        assert(blocks@.skip(0) == blocks@);
    }
    let mut i: usize = 0;
    while i < blocks.len()
        invariant
            i <= blocks@.len(),
            spec_tool_from_blocks(blocks@) == spec_tool_from_blocks(blocks@.skip(i as int)),
        decreases blocks@.len() - i,
    {
        proof {
            assert(blocks@.skip(i as int)[0] == blocks@[i as int]);
            assert(blocks@.skip(i as int).drop_first() =~= blocks@.skip(i + 1));
        }
        let is_tool = match &blocks[i].block_type {
            Some(t) => str_eq(t.as_str(), "tool_use"),
            None => false,
        };
        if is_tool {
            return clone_opt_string(&blocks[i].name);
        }
        i += 1;
    }
    proof {
        assert(blocks@.skip(blocks@.len() as int).len() == 0);
    }
    None
}

/// Classifies one stdout line into its log type and tool name, decoding the
/// line once for the fields and once for the message blocks.
pub fn parse_stream_json_type(line: &str) -> (r: (String, Option<String>))
    ensures
        r.0@ == spec_log_type(stream_event_fields(line@)),
        r.1 == spec_tool_name(stream_event_fields(line@), message_blocks_of(line@)),
{
    proof {
        reveal_strlit("system");
        reveal_strlit("assistant");
        reveal_strlit("user");
        reveal_strlit("result");
        reveal_strlit("error");
        reveal_strlit("content_block_start");
        reveal_strlit("content_block_delta");
        assert(("system"@).len() == 6);
        assert(("assistant"@).len() == 9);
        assert(("user"@).len() == 4);
        assert(("result"@).len() == 6);
        assert(("error"@).len() == 5);
        assert(("content_block_start"@).len() == 19);
        assert(("content_block_delta"@).len() == 19);
        assert(("content_block_start"@)[14] == 's');
        assert(("content_block_delta"@)[14] == 'd');
    }
    let fields = extract_event_fields(line);
    match fields {
        None => (str_of("info"), None),
        Some(f) => {
            match &f.event_type {
                None => (str_of("info"), None),
                Some(t) => {
                    let ts = t.as_str();
                    if str_eq(ts, "system") {
                        (str_of("system"), None)
                    } else if str_eq(ts, "assistant") {
                        let blocks = extract_message_blocks(line);
                        (str_of("assistant"), find_tool_use(&blocks))
                    } else if str_eq(ts, "user") {
                        (str_of("tool_result"), None)
                    } else if str_eq(ts, "result") {
                        if matches!(f.is_error, Some(true)) {
                            (str_of("error"), None)
                        } else {
                            (str_of("info"), None)
                        }
                    } else if str_eq(ts, "error") {
                        (str_of("error"), None)
                    } else if str_eq(ts, "content_block_start") {
                        (str_of("assistant"), clone_opt_string(&f.content_block_name))
                    } else if str_eq(ts, "content_block_delta") {
                        (str_of("assistant"), None)
                    } else {
                        (str_of("info"), None)
                    }
                },
            }
        },
    }
}

pub open spec fn spec_sat_add(a: int, b: int) -> int {
    if a + b > usize::MAX {
        usize::MAX as int
    } else {
        a + b
    }
}

fn sat_add(a: usize, b: usize) -> (r: usize)
    ensures
        r == spec_sat_add(a as int, b as int),
{
    if a > usize::MAX - b {
        usize::MAX
    } else {
        a + b
    }
}

/// One stream's live state: its counters, the bounded in-memory copy, and
/// how many bytes of it were kept.
#[derive(Debug)]
pub struct StreamAcc {
    pub stats: StreamStats,
    pub text: String,
    pub kept_bytes: usize,
}

impl StreamAcc {
    /// The accumulation rules: the copy never holds more than the bound,
    /// the truncation flag is set exactly when the true stream exceeded the
    /// bound, and until then the copy is complete.
    pub open spec fn wf(self) -> bool {
        &&& self.kept_bytes <= MAX_ACCUMULATED_OUTPUT_SIZE
        &&& self.stats.truncated == (self.stats.total_bytes > MAX_ACCUMULATED_OUTPUT_SIZE)
        &&& (!self.stats.truncated ==> self.kept_bytes == self.stats.total_bytes)
        &&& self.kept_bytes <= self.stats.total_bytes
    }

    /// What one line does to a stream's state: the counters grow by the
    /// line and its newline, and the line is kept exactly when the whole of
    /// it still fits under the bound.
    pub open spec fn spec_step(pre: StreamAcc, post: StreamAcc, line: Seq<char>,
        nbytes: int) -> bool {
        let total2 = spec_sat_add(pre.stats.total_bytes as int, nbytes + 1);
        &&& post.stats.total_bytes == total2
        &&& post.stats.total_lines == spec_sat_add(pre.stats.total_lines as int, 1)
        &&& post.stats.truncated == (total2 > MAX_ACCUMULATED_OUTPUT_SIZE)
        &&& if total2 <= MAX_ACCUMULATED_OUTPUT_SIZE {
            post.text@ == pre.text@ + line + seq!['\n'] && post.kept_bytes == total2
        } else {
            post.text == pre.text && post.kept_bytes == pre.kept_bytes
        }
    }
}

/// A session announcement: the first `system`/`init` line's non-empty
/// session id, with the model or an empty string.
pub open spec fn spec_session_line(line: Seq<char>) -> Option<(Seq<char>, Seq<char>)> {
    match stream_event_fields(line) {
        None => None,
        Some(f) => if (f.event_type matches Some(t) && t@ == "system"@)
            && (f.subtype matches Some(s) && s@ == "init"@)
            && (f.session_id matches Some(sid) && sid@.len() > 0) {
            Some((
                f.session_id->0@,
                match f.model {
                    Some(m) => m@,
                    None => ""@,
                },
            ))
        } else {
            None
        },
    }
}

/// Per-job ingestion of the child's output: classification, bounded
/// accumulation, sequence numbering, batch flushing, and the session
/// announcement, exactly once each per line.
#[derive(Debug)]
pub struct StreamProcessor {
    pub job_id: String,
    pub stdout: StreamAcc,
    pub stderr: StreamAcc,
    pub next_sequence: i64,
    pub buffer: Vec<BufferedLogEntry>,
    pub last_flush: i64,
    pub session_recorded: bool,
}

impl StreamProcessor {
    /// The processor invariant: both accumulators obey the bound rules, and
    /// the buffer holds exactly the classified lines whose sequences run
    /// contiguously up to the next sequence to be allocated.
    pub open spec fn wf(self) -> bool {
        &&& self.stdout.wf()
        &&& self.stderr.wf()
        &&& 0 <= self.next_sequence
        &&& self.buffer@.len() <= self.next_sequence
        &&& forall|k: int|
            0 <= k < self.buffer@.len() ==> (#[trigger] self.buffer@[k]).sequence
                == self.next_sequence - self.buffer@.len() + k
        &&& forall|k: int|
            0 <= k < self.buffer@.len() ==> (#[trigger] self.buffer@[k]).job_id@ == self.job_id@
        &&& 0 <= self.last_flush <= MS_CLOCK_LIMIT
    }

    /// A fresh processor for one job.
    pub fn new(job_id: &str, now_ms: i64) -> (r: StreamProcessor)
        requires
            0 <= now_ms <= MS_CLOCK_LIMIT,
        ensures
            r.wf(),
            r.job_id@ == job_id@,
            r.next_sequence == 0,
            r.buffer@.len() == 0,
            r.stdout.stats.total_bytes == 0,
            r.stderr.stats.total_bytes == 0,
            r.stdout.text@.len() == 0,
            r.stderr.text@.len() == 0,
            !r.stdout.stats.truncated,
            !r.stderr.stats.truncated,
            !r.session_recorded,
            r.last_flush == now_ms,
    {
        StreamProcessor {
            job_id: str_of(job_id),
            stdout: StreamAcc {
                stats: StreamStats { total_bytes: 0, total_lines: 0, truncated: false },
                text: String::new(),
                kept_bytes: 0,
            },
            stderr: StreamAcc {
                stats: StreamStats { total_bytes: 0, total_lines: 0, truncated: false },
                text: String::new(),
                kept_bytes: 0,
            },
            next_sequence: 0,
            buffer: Vec::new(),
            last_flush: now_ms,
            session_recorded: false,
        }
    }

    /// Drains the buffer into the store as one batch, all or nothing. The
    /// appended-logs notification comes back only when the batch was
    /// persisted, so a client that consumes notifications alone sees
    /// persisted sequences. On a refused insert the drained lines are
    /// dropped and nothing is announced; the push channel has already
    /// delivered the lines themselves.
    pub fn flush_buffer(&mut self, store: &mut Store, now_ms: i64)
        -> (r: Option<JobLogsAppendedPayload>)
        requires
            old(self).wf(),
            old(store).wf(),
            0 <= now_ms <= MS_CLOCK_LIMIT,
        ensures
            final(self).wf(),
            final(store).wf(),
            same_but_logs(*old(store), *final(store)),
            final(self).buffer@.len() == 0,
            *final(self) == (StreamProcessor {
                buffer: final(self).buffer,
                last_flush: final(self).last_flush,
                ..*old(self)
            }),
            old(self).buffer@.len() == 0 ==> r is None && *final(store) == *old(store)
                && final(self).last_flush == old(self).last_flush,
            old(self).buffer@.len() > 0 ==> {
                let batch = Seq::new(old(self).buffer@.len(), |k: int| spec_to_batch(
                    old(self).buffer@[k],
                ));
                &&& (old(store).spec_batch_insert_ok(batch) ==> {
                    &&& spec_batch_appended(*old(store), *final(store), batch, now_ms)
                    &&& final(self).last_flush == now_ms
                    &&& (r matches Some(p) && p.job_id@ == old(self).job_id@
                        && p.count == old(self).buffer@.len()
                        && p.last_sequence == old(self).buffer@.last().sequence)
                })
                &&& (!old(store).spec_batch_insert_ok(batch) ==> *final(store) == *old(store)
                    && final(self).last_flush == old(self).last_flush && r is None)
            },
    {
        if self.buffer.len() == 0 {
            return None;
        }
        let mut batch: Vec<BatchLogEntry> = Vec::new();
        let mut i: usize = 0;
        while i < self.buffer.len()
            invariant
                i <= self.buffer@.len(),
                batch@.len() == i,
                forall|k: int| 0 <= k < i ==> batch@[k] == spec_to_batch(self.buffer@[k]),
                *self == *old(self),
            decreases self.buffer@.len() - i,
        {
            batch.push(self.buffer[i].to_batch_entry());
            i += 1;
        }
        proof {
            assert(batch@ =~= Seq::new(old(self).buffer@.len(), |k: int| spec_to_batch(
                old(self).buffer@[k],
            )));
        }
        let count = self.buffer.len();
        let last_seq = self.buffer[count - 1].sequence;
        self.buffer.clear();
        match store.insert_job_logs_batch(&batch, now_ms) {
            Ok(_) => {
                self.last_flush = now_ms;
                Some(JobLogsAppendedPayload {
                    job_id: self.job_id.clone(),
                    count: count as i64,
                    last_sequence: last_seq,
                })
            },
            Err(_) => None,
        }
    }

    /// Ingests one newline-terminated line from the child: counters and the
    /// bounded copy advance, the line is classified and sequenced into the
    /// buffer, the first session announcement is recorded, the buffer is
    /// flushed when full or overdue, and the line's push event is returned.
    pub fn process_line(&mut self, store: &mut Store, line: &str, source: StreamSource,
        now_ms: i64) -> (r: (StreamEvent, Option<JobLogsAppendedPayload>))
        requires
            old(self).wf(),
            old(store).wf(),
            old(self).next_sequence < 0x7fff_ffff_ffff_ffff,
            0 <= now_ms <= MS_CLOCK_LIMIT,
        ensures
            final(self).wf(),
            final(store).wf(),
            same_but_jobs_and_logs_free(*old(store), *final(store)),
            final(self).job_id == old(self).job_id,
            r.0.job_id@ == old(self).job_id@,
            r.0.event_type@ == source.spec_str(),
            r.0.content@ == line@,
            r.0.timestamp == now_ms,
            source == StreamSource::Stdout ==> StreamAcc::spec_step(
                old(self).stdout,
                final(self).stdout,
                line@,
                (line.spec_bytes().len() as usize) as int,
            ) && final(self).stderr == old(self).stderr,
            source == StreamSource::Stderr ==> StreamAcc::spec_step(
                old(self).stderr,
                final(self).stderr,
                line@,
                (line.spec_bytes().len() as usize) as int,
            ) && final(self).stdout == old(self).stdout,
            final(self).next_sequence == old(self).next_sequence + 1,
            final(self).session_recorded == (old(self).session_recorded || (
                source == StreamSource::Stdout && spec_session_line(line@) is Some)),
            ({
                let flushed = old(self).buffer@.len() + 1 >= LOG_BUFFER_FLUSH_SIZE
                    || now_ms - old(self).last_flush >= LOG_BUFFER_FLUSH_INTERVAL_MS;
                &&& (!flushed ==> {
                    &&& final(self).buffer@.len() == old(self).buffer@.len() + 1
                    &&& forall|k: int|
                        0 <= k < old(self).buffer@.len() ==> final(self).buffer@[k]
                            == old(self).buffer@[k]
                    &&& spec_line_entry(final(self).buffer@.last(), *old(self), line@, source)
                    &&& r.1 is None
                    &&& final(self).last_flush == old(self).last_flush
                    &&& exists|mid: Store| spec_session_step(
                        *old(store),
                        mid,
                        *old(self),
                        line@,
                        source,
                    ) && *final(store) == mid
                })
                &&& (flushed ==> {
                    &&& final(self).buffer@.len() == 0
                    &&& exists|mid: Store, entry: BufferedLogEntry|
                        #![trigger spec_session_step(*old(store), mid, *old(self), line@,
                            source), spec_flush_outcome(mid, *final(store),
                            old(self).buffer@.push(entry), now_ms)]
                        {
                            let entries = old(self).buffer@.push(entry);
                            let batch = Seq::new(entries.len(), |k: int| spec_to_batch(
                                entries[k],
                            ));
                            &&& spec_session_step(*old(store), mid, *old(self), line@,
                                source)
                            &&& spec_line_entry(entry, *old(self), line@, source)
                            &&& spec_flush_outcome(mid, *final(store), entries, now_ms)
                            &&& (mid.spec_batch_insert_ok(batch) ==> (r.1 matches Some(p)
                                && p.job_id@ == old(self).job_id@
                                && p.count == old(self).buffer@.len() + 1
                                && p.last_sequence == old(self).next_sequence))
                            &&& (!mid.spec_batch_insert_ok(batch) ==> r.1 is None)
                        }
                })
            }),
    {
        // Accumulate into the right stream and classify the line.
        let (log_type, tool_name) = match source {
            StreamSource::Stdout => {
                self.stdout.push_line(line);
                parse_stream_json_type(line)
            },
            StreamSource::Stderr => {
                self.stderr.push_line(line);
                (str_of("stderr"), None)
            },
        };
        // Record the first session announcement.
        if matches!(source, StreamSource::Stdout) && !self.session_recorded {
            let ghost pre_proc = *self;
            self.record_session(store, line);
            proof {
                assert(spec_session_step(*old(store), *store, pre_proc, line@, source));
                assert(spec_session_step(*old(store), *store, *old(self), line@, source));
            }
        } else {
            proof {
                assert(spec_session_step(*old(store), *store, *old(self), line@, source));
            }
        }
        let ghost mid_store = *store;
        // Allocate the sequence and buffer the classified line.
        let seq = self.next_sequence;
        self.next_sequence = self.next_sequence + 1;
        let entry = BufferedLogEntry {
            job_id: self.job_id.clone(),
            source: str_of(source.as_str()),
            log_type,
            content: str_of(line),
            tool_name,
            sequence: seq,
        };
        let ghost gentry = entry;
        self.buffer.push(entry);
        // Flush when the buffer is full or the last flush is overdue.
        let should_flush = self.buffer.len() >= LOG_BUFFER_FLUSH_SIZE
            || now_ms - self.last_flush >= LOG_BUFFER_FLUSH_INTERVAL_MS;
        let payload = if should_flush {
            let r = self.flush_buffer(store, now_ms);
            proof {
                assert(spec_line_entry(gentry, *old(self), line@, source));
                assert(spec_flush_outcome(mid_store, *store,
                    old(self).buffer@.push(gentry), now_ms));
            }
            r
        } else {
            None
        };
        let ev = StreamEvent {
            job_id: self.job_id.clone(),
            event_type: str_of(source.as_str()),
            content: str_of(line),
            timestamp: now_ms,
        };
        (ev, payload)
    }

    /// Applies the line's session announcement to the store, at most once
    /// per job.
    fn record_session(&mut self, store: &mut Store, line: &str)
        requires
            old(self).wf(),
            old(store).wf(),
            !old(self).session_recorded,
        ensures
            final(self).wf(),
            final(store).wf(),
            *final(self) == (StreamProcessor {
                session_recorded: final(self).session_recorded,
                ..*old(self)
            }),
            final(self).session_recorded == (spec_session_line(line@) is Some),
            spec_session_step(*old(store), *final(store), *old(self), line@,
                StreamSource::Stdout),
    {
        proof {
            reveal_strlit("system");
            reveal_strlit("init");
            reveal_strlit("");
            assert((""@).len() == 0);
        }
        let fields = match extract_event_fields(line) {
            Some(f) => f,
            None => {
                return ;
            },
        };
        let is_init = opt_string_is(&fields.event_type, "system")
            && opt_string_is(&fields.subtype, "init");
        if !is_init {
            return ;
        }
        let sid = match &fields.session_id {
            Some(s) => {
                if s.as_str().is_empty() {
                    return ;
                }
                s.clone()
            },
            None => {
                return ;
            },
        };
        let ghost had_model = fields.model;
        let model: String = match fields.model {
            Some(m) => m,
            None => String::new(),
        };
        proof {
            if had_model is None {
                assert(model@ =~= ""@);
            }
        }
        let _ = store.update_job_ai_session(&self.job_id, sid.as_str(), model.as_str());
        self.session_recorded = true;
    }

    /// One last flush, then the stream statistics are persisted and the
    /// completion context handed back for the completion handler.
    pub fn finalize(&mut self, store: &mut Store, success: bool, exit_code: Option<i32>,
        now_ms: i64) -> (r: CompletionContext)
        requires
            old(self).wf(),
            old(store).wf(),
            0 <= now_ms <= MS_CLOCK_LIMIT,
        ensures
            final(self).wf(),
            final(store).wf(),
            same_but_jobs_and_logs_free(*old(store), *final(store)),
            final(self).buffer@.len() == 0,
            final(self).stdout == old(self).stdout,
            final(self).stderr == old(self).stderr,
            r.job_id@ == old(self).job_id@,
            r.success == success,
            r.exit_code == exit_code,
            r.stdout_stats == old(self).stdout.stats,
            r.stderr_stats == old(self).stderr.stats,
            r.accumulated_stdout@ == old(self).stdout.text@,
            r.accumulated_stderr@ == old(self).stderr.text@,
            exists|mid: Store| spec_flush_outcome(*old(store), mid, old(self).buffer@, now_ms)
                && spec_stats_persisted(mid, *final(store), *final(self)),
    {
        self.flush_buffer(store, now_ms);
        proof {
            assert(spec_flush_outcome(*old(store), *store, old(self).buffer@, now_ms));
        }
        let ghost mid_store = *store;
        let _ = store.update_job_stream_stats(
            &self.job_id,
            self.stdout.stats.truncated,
            self.stderr.stats.truncated,
            sat_i64(self.stdout.stats.total_bytes),
            sat_i64(self.stderr.stats.total_bytes),
        );
        proof {
            assert(spec_stats_persisted(mid_store, *store, *self));
            assert(spec_flush_outcome(*old(store), mid_store, old(self).buffer@, now_ms)
                && spec_stats_persisted(mid_store, *store, *self));
        }
        CompletionContext {
            job_id: self.job_id.clone(),
            success,
            exit_code,
            stdout_stats: self.stdout.stats,
            stderr_stats: self.stderr.stats,
            accumulated_stdout: self.stdout.text.clone(),
            accumulated_stderr: self.stderr.text.clone(),
        }
    }
}

impl StreamAcc {
    /// Advances one stream's counters and bounded copy by one line.
    pub fn push_line(&mut self, line: &str)
        requires
            old(self).wf(),
        ensures
            final(self).wf(),
            StreamAcc::spec_step(*old(self), *final(self), line@,
                (line.spec_bytes().len() as usize) as int),
    {
        let nb = line.len();
        let t1 = sat_add(self.stats.total_bytes, nb);
        let total2 = sat_add(t1, 1);
        if total2 <= MAX_ACCUMULATED_OUTPUT_SIZE {
            self.text.append(line);
            self.text.append("\n");
            self.kept_bytes = total2;
            proof {
                reveal_strlit("\n");
                assert(self.text@ =~= old(self).text@ + line@ + seq!['\n']);
            }
        }
        self.stats.total_bytes = total2;
        self.stats.total_lines = sat_add(self.stats.total_lines, 1);
        self.stats.truncated = total2 > MAX_ACCUMULATED_OUTPUT_SIZE;
    }
}

/// Bounded accumulation: a well-formed stream state never keeps more than
/// the in-memory bound, and its truncation flag is set exactly when the
/// true stream exceeded that bound.
pub proof fn lemma_bounded_accumulation(p: StreamProcessor)
    requires
        p.wf(),
    ensures
        p.stdout.kept_bytes <= MAX_ACCUMULATED_OUTPUT_SIZE,
        p.stderr.kept_bytes <= MAX_ACCUMULATED_OUTPUT_SIZE,
        p.stdout.stats.truncated == (p.stdout.stats.total_bytes
            > MAX_ACCUMULATED_OUTPUT_SIZE),
        p.stderr.stats.truncated == (p.stderr.stats.total_bytes
            > MAX_ACCUMULATED_OUTPUT_SIZE),
{
}

/// The classified, sequenced buffer entry one line becomes.
pub open spec fn spec_line_entry(e: BufferedLogEntry, pre: StreamProcessor, line: Seq<char>,
    source: StreamSource) -> bool {
    &&& e.job_id@ == pre.job_id@
    &&& e.source@ == source.spec_str()
    &&& e.content@ == line
    &&& e.sequence == pre.next_sequence
    &&& (source == StreamSource::Stdout ==> e.log_type@ == spec_log_type(
        stream_event_fields(line),
    ) && e.tool_name == spec_tool_name(stream_event_fields(line), message_blocks_of(line)))
    &&& (source == StreamSource::Stderr ==> e.log_type@ == "stderr"@ && e.tool_name is None)
}

/// What the session announcement does to the store: on the first
/// `system`/`init` stdout line with a non-empty session id, the job row
/// learns the session and model; otherwise nothing changes.
pub open spec fn spec_session_step(pre: Store, post: Store, proc0: StreamProcessor,
    line: Seq<char>, source: StreamSource) -> bool {
    let ripe = source == StreamSource::Stdout && !proc0.session_recorded
        && spec_session_line(line) is Some;
    if ripe && spec_has_job(pre.jobs@, proc0.job_id@) {
        let idx = spec_job_index(pre.jobs@, proc0.job_id@);
        &&& same_but_jobs(pre, post)
        &&& post.jobs@ == pre.jobs@.update(idx, post.jobs@[idx])
        &&& Store::spec_session_change(
            pre.jobs@[idx],
            post.jobs@[idx],
            (spec_session_line(line)->0).0,
            (spec_session_line(line)->0).1,
        )
    } else {
        post == pre
    }
}

/// What one flush does to the store: nothing for an empty buffer, the whole
/// batch appended when the store accepts it, and nothing otherwise.
pub open spec fn spec_flush_outcome(pre: Store, post: Store, entries: Seq<BufferedLogEntry>,
    now: i64) -> bool {
    let batch = Seq::new(entries.len(), |k: int| spec_to_batch(entries[k]));
    &&& same_but_logs(pre, post)
    &&& if entries.len() == 0 {
        post == pre
    } else if pre.spec_batch_insert_ok(batch) {
        spec_batch_appended(pre, post, batch, now)
    } else {
        post == pre
    }
}

pub open spec fn spec_sat_i64(x: int) -> int {
    if x > 0x7fff_ffff_ffff_ffff {
        0x7fff_ffff_ffff_ffff
    } else {
        x
    }
}

fn sat_i64(x: usize) -> (r: i64)
    ensures
        r == spec_sat_i64(x as int),
{
    if x as u64 > 0x7fff_ffff_ffff_ffffu64 {
        i64::MAX
    } else {
        x as i64
    }
}

/// What persisting the final stream statistics does to the store: the job
/// row, if it exists, carries the counters and truncation flags.
pub open spec fn spec_stats_persisted(pre: Store, post: Store, proc1: StreamProcessor) -> bool {
    if spec_has_job(pre.jobs@, proc1.job_id@) {
        let idx = spec_job_index(pre.jobs@, proc1.job_id@);
        &&& same_but_jobs(pre, post)
        &&& post.jobs@ == pre.jobs@.update(
            idx,
            Job {
                stdout_truncated: proc1.stdout.stats.truncated,
                stderr_truncated: proc1.stderr.stats.truncated,
                total_stdout_bytes: spec_sat_i64(proc1.stdout.stats.total_bytes as int) as i64,
                total_stderr_bytes: spec_sat_i64(proc1.stderr.stats.total_bytes as int) as i64,
                ..pre.jobs@[idx]
            },
        )
    } else {
        post == pre
    }
}

/// Neither store change of stream processing touches any other table.
pub open spec fn same_but_jobs_and_logs_free(a: Store, b: Store) -> bool {
    &&& a.company_profile == b.company_profile
    &&& a.leads == b.leads
    &&& a.people == b.people
    &&& a.prompts == b.prompts
    &&& a.scoring_configs == b.scoring_configs
    &&& a.lead_scores == b.lead_scores
    &&& a.settings == b.settings
    &&& a.next_lead_id == b.next_lead_id
    &&& a.next_person_id == b.next_person_id
    &&& a.next_prompt_id == b.next_prompt_id
    &&& a.next_config_id == b.next_config_id
    &&& a.next_score_id == b.next_score_id
}

} // verus!
