pub mod enrichment;
pub mod schema;
pub mod store;
pub mod events;
pub mod jsonio;
pub mod textutil;
pub mod stream;
pub mod result_parser;
pub mod completion;
pub mod queue;
pub mod recovery;
pub mod crypto;
pub mod subscription;
pub mod prompts;

use vstd::prelude::*;

verus! {

/// The largest number of jobs that may hold permits at once.
pub const MAX_CONCURRENT_JOBS: usize = 5;

/// Seconds a submission may wait for a permit before it is failed.
pub const QUEUE_TIMEOUT_SECS: u64 = 30;

/// Seconds a running job of most kinds may take before it times out.
pub const JOB_TIMEOUT_SECS: u64 = 600;

/// Seconds a running scoring job may take before it times out.
pub const SCORING_TIMEOUT_SECS: u64 = 300;

/// Seconds allowed between the polite and the forceful termination signal.
pub const GRACEFUL_SHUTDOWN_SECS: u64 = 2;

/// Seconds allowed for each stream-reader task to drain after the child exits.
pub const STREAM_DRAIN_TIMEOUT_SECS: u64 = 5;

/// Seconds after which a queued or running job with no live supervisor is stale.
pub const STALE_JOB_THRESHOLD_SECS: i64 = 600;

/// Whether a durable key-value store backs the caller's session data.
pub fn has_storage() -> (r: bool)
    ensures
        r,
{
    true
}

} // verus!
