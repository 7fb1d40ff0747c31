use afrasyab::job::{status_name, transition, DomainError, JobStatus};

#[test]
fn happy_path() {
    let mut s = JobStatus::Queued;
    s = transition(s, JobStatus::Downloading).unwrap();
    s = transition(s, JobStatus::Uploading).unwrap();
    s = transition(s, JobStatus::Completed).unwrap();
    assert_eq!(s, JobStatus::Completed);
}

#[test]
fn cannot_skip_to_completed() {
    let err = transition(JobStatus::Queued, JobStatus::Completed).unwrap_err();
    let DomainError::InvalidTransition(from, to) = err else {
        panic!("expected InvalidTransition");
    };
    assert_eq!(from, "queued");
    assert_eq!(to, "completed");
}

#[test]
fn status_transition_allows_failure_from_queued() {
    let err = transition(JobStatus::Queued, JobStatus::Failed);
    assert!(err.is_ok());
}

#[test]
fn terminal_statuses_reject_every_move() {
    let all = [
        JobStatus::Queued,
        JobStatus::Downloading,
        JobStatus::Uploading,
        JobStatus::Completed,
        JobStatus::Failed,
    ];
    for from in [JobStatus::Completed, JobStatus::Failed] {
        for to in all {
            assert!(transition(from, to).is_err());
        }
    }
}

#[test]
fn every_unfinished_status_can_fail() {
    for from in [JobStatus::Queued, JobStatus::Downloading, JobStatus::Uploading] {
        assert_eq!(transition(from, JobStatus::Failed).unwrap(), JobStatus::Failed);
    }
}

#[test]
fn status_names_are_lowercase_words() {
    assert_eq!(status_name(JobStatus::Queued), "queued");
    assert_eq!(status_name(JobStatus::Downloading), "downloading");
    assert_eq!(status_name(JobStatus::Uploading), "uploading");
    assert_eq!(status_name(JobStatus::Completed), "completed");
    assert_eq!(status_name(JobStatus::Failed), "failed");
}
