//! What a job worker does between jobs: pause while the scratch disk is under pressure,
//! run a claimed job, or wait before claiming again.
use vstd::prelude::*;

verus! {

/// How long a worker waits when no job is queued, in milliseconds.
pub const IDLE_POLL_MS: u64 = 500;

/// How long a worker waits while the scratch disk is under pressure, in milliseconds.
pub const DISK_PRESSURE_POLL_MS: u64 = 15000;

/// How long a worker waits after failing to claim a job, in milliseconds.
pub const CLAIM_RETRY_MS: u64 = 1000;

/// The outcome of trying to claim the next queued job.
#[derive(Debug, Clone, Copy, PartialEq, Eq, Structural)]
pub enum ClaimOutcome {
    /// A job was claimed.
    Claimed,
    /// No job is queued.
    Empty,
    /// The claim failed.
    Failed,
}

/// The next thing a worker does.
#[derive(Debug, Clone, Copy, PartialEq, Eq, Structural)]
pub enum WorkerStep {
    /// Claim the next queued job.
    Claim,
    /// Run the job just claimed.
    RunJob,
    /// Wait this many milliseconds, then start over.
    Pause { millis: u64 },
}

/// The first step of a round: no job is claimed while the scratch disk is under pressure.
pub fn round_start(pressured: bool) -> (res: WorkerStep)
    ensures
        res == if pressured {
            WorkerStep::Pause { millis: DISK_PRESSURE_POLL_MS }
        } else {
            WorkerStep::Claim
        },
{
    if pressured {
        WorkerStep::Pause { millis: DISK_PRESSURE_POLL_MS }
    } else {
        WorkerStep::Claim
    }
}

/// The step after a claim: run what was claimed, otherwise wait, longer after a failure.
pub fn after_claim(outcome: ClaimOutcome) -> (res: WorkerStep)
    ensures
        res == match outcome {
            ClaimOutcome::Claimed => WorkerStep::RunJob,
            ClaimOutcome::Empty => WorkerStep::Pause { millis: IDLE_POLL_MS },
            ClaimOutcome::Failed => WorkerStep::Pause { millis: CLAIM_RETRY_MS },
        },
{
    match outcome {
        ClaimOutcome::Claimed => WorkerStep::RunJob,
        ClaimOutcome::Empty => WorkerStep::Pause { millis: IDLE_POLL_MS },
        ClaimOutcome::Failed => WorkerStep::Pause { millis: CLAIM_RETRY_MS },
    }
}

} // verus!
