//! Job lifecycle: statuses, the allowed transitions between them, and their wire names.
use vstd::prelude::*;

verus! {

/// Where a download job stands.
#[derive(Debug, Clone, Copy, PartialEq, Eq, Structural)]
pub enum JobStatus {
    Queued,
    Downloading,
    Uploading,
    Completed,
    Failed,
}

/// What a job downloads from.
#[derive(Debug, Clone, Copy, PartialEq, Eq, Structural)]
pub enum SourceType {
    LinkYtDlp,
    LinkDirect,
    TelegramFile,
    PlaylistItem,
}

/// The yt-dlp format a user picked.
#[derive(Debug, Clone, Copy, PartialEq, Eq, Structural)]
pub enum YtDlpFormat {
    Video,
    Audio,
    Best,
}

/// Errors of the domain layer.
#[derive(Debug)]
pub enum DomainError {
    /// A status change that the job lifecycle does not allow, by the two status names.
    InvalidTransition(&'static str, &'static str),
    /// Encryption or decryption failed.
    Crypto(String),
}

/// The lowercase wire name of a status.
pub open spec fn status_text_of(status: JobStatus) -> Seq<char> {
    match status {
        JobStatus::Queued => "queued"@,
        JobStatus::Downloading => "downloading"@,
        JobStatus::Uploading => "uploading"@,
        JobStatus::Completed => "completed"@,
        JobStatus::Failed => "failed"@,
    }
}

/// The lifecycle's edges: forward one step, or to `Failed` from any unfinished status.
pub open spec fn allowed_transition(from: JobStatus, to: JobStatus) -> bool {
    ||| (from == JobStatus::Queued && to == JobStatus::Downloading)
    ||| (from == JobStatus::Downloading && to == JobStatus::Uploading)
    ||| (from == JobStatus::Uploading && to == JobStatus::Completed)
    ||| (from == JobStatus::Queued && to == JobStatus::Failed)
    ||| (from == JobStatus::Downloading && to == JobStatus::Failed)
    ||| (from == JobStatus::Uploading && to == JobStatus::Failed)
}

/// A status from which no transition leaves.
pub open spec fn is_terminal(status: JobStatus) -> bool {
    status == JobStatus::Completed || status == JobStatus::Failed
}

/// The wire name of `status` (`"queued"`, `"downloading"`, ...).
pub fn status_name(status: JobStatus) -> (res: &'static str)
    ensures
        res@ == status_text_of(status),
{
    match status {
        JobStatus::Queued => "queued",
        JobStatus::Downloading => "downloading",
        JobStatus::Uploading => "uploading",
        JobStatus::Completed => "completed",
        JobStatus::Failed => "failed",
    }
}

/// Moves a job from `from` to `to`, or reports the pair by name when the lifecycle forbids it.
pub fn transition(from: JobStatus, to: JobStatus) -> (res: Result<JobStatus, DomainError>)
    ensures
        allowed_transition(from, to) ==> res == Ok::<JobStatus, DomainError>(to),
        !allowed_transition(from, to) ==> (res matches Err(DomainError::InvalidTransition(a, b))
            && a@ == status_text_of(from) && b@ == status_text_of(to)),
{
    let allowed = match (from, to) {
        (JobStatus::Queued, JobStatus::Downloading) => true,
        (JobStatus::Downloading, JobStatus::Uploading) => true,
        (JobStatus::Uploading, JobStatus::Completed) => true,
        (JobStatus::Queued, JobStatus::Failed) => true,
        (JobStatus::Downloading, JobStatus::Failed) => true,
        (JobStatus::Uploading, JobStatus::Failed) => true,
        _ => false,
    };
    if allowed {
        Ok(to)
    } else {
        Err(DomainError::InvalidTransition(status_name(from), status_name(to)))
    }
}

/// Completed and failed jobs never move again.
pub proof fn lemma_terminal_statuses_are_final(from: JobStatus, to: JobStatus)
    requires
        is_terminal(from),
    ensures
        !allowed_transition(from, to),
{
}

/// Every unfinished job may be marked failed.
pub proof fn lemma_unfinished_can_fail(from: JobStatus)
    requires
        !is_terminal(from),
    ensures
        allowed_transition(from, JobStatus::Failed),
{
}

/// No status moves to itself, and nothing moves back to `Queued`.
pub proof fn lemma_no_self_or_back_to_queued(from: JobStatus, to: JobStatus)
    ensures
        !allowed_transition(from, from),
        !allowed_transition(from, JobStatus::Queued),
{
}

/// Distinct statuses have distinct wire names.
pub proof fn lemma_status_names_distinct(a: JobStatus, b: JobStatus)
    requires
        a != b,
    ensures
        status_text_of(a) != status_text_of(b),
{
    reveal_strlit("queued");
    reveal_strlit("downloading");
    reveal_strlit("uploading");
    reveal_strlit("completed");
    reveal_strlit("failed");
    assert(status_text_of(a)[0] != status_text_of(b)[0] || status_text_of(a).len() != status_text_of(b).len()
        || status_text_of(a)[1] != status_text_of(b)[1]);
}

} // verus!
