//! Names under which statuses, sources and pending folder actions are stored, and the
//! SQL expiry expression of short-lived rows.
use vstd::prelude::*;
use crate::job::{lemma_status_names_distinct, status_text_of, JobStatus, SourceType};
use crate::commands::{before_first, split_first};
use crate::text::{
    chars_eq, chars_of, decimal, has_prefix, push_decimal, push_str, slice_to_vec,
    starts_with_chars, str_eq, string_from_chars,
};

verus! {

// ---------------------------------------------------------------------------
// Job statuses
// ---------------------------------------------------------------------------

/// The status whose wire name is `s`, if any.
pub open spec fn job_status_from_text(s: Seq<char>) -> Option<JobStatus> {
    if s == status_text_of(JobStatus::Queued) {
        Some(JobStatus::Queued)
    } else if s == status_text_of(JobStatus::Downloading) {
        Some(JobStatus::Downloading)
    } else if s == status_text_of(JobStatus::Uploading) {
        Some(JobStatus::Uploading)
    } else if s == status_text_of(JobStatus::Completed) {
        Some(JobStatus::Completed)
    } else if s == status_text_of(JobStatus::Failed) {
        Some(JobStatus::Failed)
    } else {
        None
    }
}

/// Reads a stored status name; unknown names give `None`.
pub fn parse_job_status(raw: &str) -> (res: Option<JobStatus>)
    ensures
        res == job_status_from_text(raw@),
{
    if str_eq(raw, "queued") {
        Some(JobStatus::Queued)
    } else if str_eq(raw, "downloading") {
        Some(JobStatus::Downloading)
    } else if str_eq(raw, "uploading") {
        Some(JobStatus::Uploading)
    } else if str_eq(raw, "completed") {
        Some(JobStatus::Completed)
    } else if str_eq(raw, "failed") {
        Some(JobStatus::Failed)
    } else {
        None
    }
}

/// Reading back the stored name of a status gives that status.
pub proof fn lemma_job_status_round_trip(status: JobStatus)
    ensures
        job_status_from_text(status_text_of(status)) == Some(status),
{
    if status != JobStatus::Queued {
        lemma_status_names_distinct(status, JobStatus::Queued);
    }
    if status != JobStatus::Downloading {
        lemma_status_names_distinct(status, JobStatus::Downloading);
    }
    if status != JobStatus::Uploading {
        lemma_status_names_distinct(status, JobStatus::Uploading);
    }
    if status != JobStatus::Completed {
        lemma_status_names_distinct(status, JobStatus::Completed);
    }
}

// ---------------------------------------------------------------------------
// Job sources
// ---------------------------------------------------------------------------

/// The stored name of a job source.
pub open spec fn source_type_text(t: SourceType) -> Seq<char> {
    match t {
        SourceType::LinkYtDlp => "link_yt_dlp"@,
        SourceType::LinkDirect => "link_direct"@,
        SourceType::TelegramFile => "telegram_file"@,
        SourceType::PlaylistItem => "playlist_item"@,
    }
}

/// The source whose stored name is `s`, if any.
pub open spec fn source_type_from_text(s: Seq<char>) -> Option<SourceType> {
    if s == source_type_text(SourceType::LinkYtDlp) {
        Some(SourceType::LinkYtDlp)
    } else if s == source_type_text(SourceType::LinkDirect) {
        Some(SourceType::LinkDirect)
    } else if s == source_type_text(SourceType::TelegramFile) {
        Some(SourceType::TelegramFile)
    } else if s == source_type_text(SourceType::PlaylistItem) {
        Some(SourceType::PlaylistItem)
    } else {
        None
    }
}

/// The stored name of a job source (`"link_yt_dlp"`, ...).
pub fn source_type_name(t: SourceType) -> (res: &'static str)
    ensures
        res@ == source_type_text(t),
{
    match t {
        SourceType::LinkYtDlp => "link_yt_dlp",
        SourceType::LinkDirect => "link_direct",
        SourceType::TelegramFile => "telegram_file",
        SourceType::PlaylistItem => "playlist_item",
    }
}

/// The name under which job log events report a source; the same as the stored name.
pub fn source_type_slug(t: SourceType) -> (res: &'static str)
    ensures
        res@ == source_type_text(t),
{
    source_type_name(t)
}

/// Reads a stored source name; unknown names give `None`.
pub fn parse_source_type(raw: &str) -> (res: Option<SourceType>)
    ensures
        res == source_type_from_text(raw@),
{
    if str_eq(raw, "link_yt_dlp") {
        Some(SourceType::LinkYtDlp)
    } else if str_eq(raw, "link_direct") {
        Some(SourceType::LinkDirect)
    } else if str_eq(raw, "telegram_file") {
        Some(SourceType::TelegramFile)
    } else if str_eq(raw, "playlist_item") {
        Some(SourceType::PlaylistItem)
    } else {
        None
    }
}

/// Distinct sources have distinct stored names.
pub proof fn lemma_source_names_distinct(a: SourceType, b: SourceType)
    requires
        a != b,
    ensures
        source_type_text(a) != source_type_text(b),
{
    reveal_strlit("link_yt_dlp");
    reveal_strlit("link_direct");
    reveal_strlit("telegram_file");
    reveal_strlit("playlist_item");
    assert(source_type_text(a)[5] != source_type_text(b)[5] || source_type_text(a)[0]
        != source_type_text(b)[0]);
}

/// Reading back the stored name of a source gives that source.
pub proof fn lemma_source_type_round_trip(t: SourceType)
    ensures
        source_type_from_text(source_type_text(t)) == Some(t),
{
    if t != SourceType::LinkYtDlp {
        lemma_source_names_distinct(t, SourceType::LinkYtDlp);
    }
    if t != SourceType::LinkDirect {
        lemma_source_names_distinct(t, SourceType::LinkDirect);
    }
    if t != SourceType::TelegramFile {
        lemma_source_names_distinct(t, SourceType::TelegramFile);
    }
}

// ---------------------------------------------------------------------------
// Pending folder actions
// ---------------------------------------------------------------------------

/// What the next folder name a user sends will do.
#[derive(Debug, Clone, Copy, PartialEq, Eq, Structural)]
pub enum FolderPendingMode {
    Rename,
    CreateNew,
}

/// The stored name of a pending folder action.
pub open spec fn folder_mode_text(m: FolderPendingMode) -> Seq<char> {
    match m {
        FolderPendingMode::Rename => "rename"@,
        FolderPendingMode::CreateNew => "create_new"@,
    }
}

/// The pending folder action whose stored name is `s`, if any.
pub open spec fn folder_mode_from_text(s: Seq<char>) -> Option<FolderPendingMode> {
    if s == folder_mode_text(FolderPendingMode::Rename) {
        Some(FolderPendingMode::Rename)
    } else if s == folder_mode_text(FolderPendingMode::CreateNew) {
        Some(FolderPendingMode::CreateNew)
    } else {
        None
    }
}

impl FolderPendingMode {
    /// The stored name (`"rename"` or `"create_new"`).
    pub fn as_str(self) -> (res: &'static str)
        ensures
            res@ == folder_mode_text(self),
    {
        match self {
            FolderPendingMode::Rename => "rename",
            FolderPendingMode::CreateNew => "create_new",
        }
    }

    /// Reads a stored name; unknown names give `None`.
    pub fn parse(s: &str) -> (res: Option<FolderPendingMode>)
        ensures
            res == folder_mode_from_text(s@),
    {
        if str_eq(s, "rename") {
            Some(FolderPendingMode::Rename)
        } else if str_eq(s, "create_new") {
            Some(FolderPendingMode::CreateNew)
        } else {
            None
        }
    }
}

/// Reading back the stored name of a pending folder action gives that action.
pub proof fn lemma_folder_mode_round_trip(m: FolderPendingMode)
    ensures
        folder_mode_from_text(folder_mode_text(m)) == Some(m),
{
    reveal_strlit("rename");
    reveal_strlit("create_new");
    assert(folder_mode_text(FolderPendingMode::Rename).len() != folder_mode_text(
        FolderPendingMode::CreateNew,
    ).len());
}

// ---------------------------------------------------------------------------
// Expiry of short-lived rows
// ---------------------------------------------------------------------------

/// The SQLite expression for "now plus `secs` seconds".
pub open spec fn expires_in_text(secs: u64) -> Seq<char> {
    "datetime('now', '+"@ + decimal(secs as nat) + " seconds')"@
}

/// The SQLite expression for a time `secs` seconds from now.
pub fn expires_in_secs(secs: u64) -> (res: String)
    ensures
        res@ == expires_in_text(secs),
{
    let mut out = chars_of("datetime('now', '+");
    push_decimal(&mut out, secs);
    push_str(&mut out, " seconds')");
    string_from_chars(out.as_slice())
}

// ---------------------------------------------------------------------------
// Job log phases
// ---------------------------------------------------------------------------

/// The phases a job reports to the log.
#[derive(Debug, Clone, Copy, PartialEq, Eq, Structural)]
pub enum JobPhase {
    Queued,
    Claimed,
    Downloading,
    Uploading,
    Completed,
    Failed,
}

/// The name of a log phase.
pub open spec fn phase_text(p: JobPhase) -> Seq<char> {
    match p {
        JobPhase::Queued => "queued"@,
        JobPhase::Claimed => "claimed"@,
        JobPhase::Downloading => "downloading"@,
        JobPhase::Uploading => "uploading"@,
        JobPhase::Completed => "completed"@,
        JobPhase::Failed => "failed"@,
    }
}

impl JobPhase {
    /// The phase's name as it appears in the log.
    pub fn as_str(self) -> (res: &'static str)
        ensures
            res@ == phase_text(self),
    {
        match self {
            JobPhase::Queued => "queued",
            JobPhase::Claimed => "claimed",
            JobPhase::Downloading => "downloading",
            JobPhase::Uploading => "uploading",
            JobPhase::Completed => "completed",
            JobPhase::Failed => "failed",
        }
    }
}

// ---------------------------------------------------------------------------
// The database file
// ---------------------------------------------------------------------------

/// The file a `sqlite:` URL names: the text after `sqlite:` up to any `?`; none for
/// other URLs, an empty path or `:memory:`.
pub open spec fn sqlite_file_spec(url: Seq<char>) -> Option<Seq<char>> {
    if has_prefix(url, "sqlite:"@) {
        let path = before_first(url.skip(7), '?');
        if path == ":memory:"@ || path.len() == 0 {
            None
        } else {
            Some(path)
        }
    } else {
        None
    }
}

/// The database file whose directory must exist before connecting, if any.
pub fn sqlite_file_path(database_url: &str) -> (res: Option<String>)
    ensures
        match res {
            Some(p) => sqlite_file_spec(database_url@) == Some(p@),
            None => sqlite_file_spec(database_url@) is None,
        },
{
    proof {
        reveal_strlit("sqlite:");
    }
    let u = chars_of(database_url);
    let prefix = chars_of("sqlite:");
    if !starts_with_chars(u.as_slice(), prefix.as_slice()) {
        return None;
    }
    let rest = slice_to_vec(u.as_slice(), 7, u.len());
    assert(rest@ =~= database_url@.skip(7));
    let (path, _) = split_first(rest.as_slice(), '?');
    let memory = chars_of(":memory:");
    if path.len() == 0 || chars_eq(path.as_slice(), memory.as_slice()) {
        return None;
    }
    Some(string_from_chars(path.as_slice()))
}

} // verus!
