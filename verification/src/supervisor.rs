use crate::config::Config;
use crate::error::BackoffPolicy;
use crate::worker::{Phase, ShareCounters, Worker};
use rand::Rng;
use vstd::prelude::*;

verus! {

/// The lowest identifier that a run can have.
pub const RUN_ID_MIN: u32 = 10000;

/// The highest identifier that a run can have.
pub const RUN_ID_MAX: u32 = 99999;

/// Whether `id` can identify a run.
pub open spec fn is_run_id(id: u32) -> bool {
    RUN_ID_MIN <= id <= RUN_ID_MAX
}

/// `Rng::gen_range` of `rand` on the thread's generator, over the inclusive
/// range from `low` to `high`. The contract claims only that the number lies
/// in the range; the call panics on an empty one, which `requires` excludes.
#[verifier::external_body]
fn random_between(low: u32, high: u32) -> (n: u32)
    requires
        low <= high,
    ensures
        low <= n <= high,
{
    rand::thread_rng().gen_range(low..=high)
}

/// Draws the identifier of this run, which all workers of the process
/// share.
pub fn draw_run_id() -> (id: u32)
    ensures
        is_run_id(id),
{
    random_between(RUN_ID_MIN, RUN_ID_MAX)
}

/// The worker number `index` of a process, as it is before it begins.
pub open spec fn fresh_worker(config: Config, index: u32, run_id: u32, now_us: u64) -> Worker {
    Worker {
        config,
        index,
        run_id,
        policy: BackoffPolicy { discovery_secs: 5, connect_secs: 3, session_secs: 2 },
        phase: Phase::Disconnected,
        shares: ShareCounters { accepted: 0, rejected: 0 },
        epoch_start_us: now_us,
    }
}

/// The workers of one process: as many as the configuration asks for,
/// numbered from zero, each with a copy of the configuration and all with
/// the same run identifier.
pub fn workers_for(config: &Config, run_id: u32, now_us: u64) -> (workers: Vec<Worker>)
    ensures
        workers@.len() == config.thread_count,
        forall|i: int|
            0 <= i < workers@.len() ==> #[trigger] workers@[i] == fresh_worker(
                *config,
                i as u32,
                run_id,
                now_us,
            ),
{
    let mut workers: Vec<Worker> = Vec::new();
    let mut index: u32 = 0;
    while index < config.thread_count
        invariant
            index <= config.thread_count,
            workers@.len() == index,
            forall|i: int|
                0 <= i < workers@.len() ==> #[trigger] workers@[i] == fresh_worker(
                    *config,
                    i as u32,
                    run_id,
                    now_us,
                ),
        decreases config.thread_count - index,
    {
        workers.push(Worker::new(config.duplicate(), index, run_id, now_us));
        index = index + 1;
    }
    workers
}

} // verus!
