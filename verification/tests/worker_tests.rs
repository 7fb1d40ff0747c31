use afrasyab::worker::{after_claim, round_start, ClaimOutcome, WorkerStep};

#[test]
fn worker_pauses_under_disk_pressure() {
    assert_eq!(round_start(true), WorkerStep::Pause { millis: 15_000 });
    assert_eq!(round_start(false), WorkerStep::Claim);
}

#[test]
fn worker_runs_claimed_jobs_and_waits_otherwise() {
    assert_eq!(after_claim(ClaimOutcome::Claimed), WorkerStep::RunJob);
    assert_eq!(after_claim(ClaimOutcome::Empty), WorkerStep::Pause { millis: 500 });
    assert_eq!(after_claim(ClaimOutcome::Failed), WorkerStep::Pause { millis: 1_000 });
}
