//! Decisions of the job runner: what to download for a job, how its files are named,
//! which status changes are recorded, and what a failed job tells its user.
use vstd::prelude::*;
use crate::filename::{
    filename_from_url_path, path_file_name, path_file_name_of, path_join, path_joined,
    sanitize_filename, sanitize_filename_spec, url_path_filename_spec,
};
use crate::crypto::{open_blob, TokenCipher};
use crate::filename::{string_from_utf8, utf8_error_text};
use crate::job::{allowed_transition, JobStatus, SourceType, YtDlpFormat};
use vstd::utf8::{decode_utf8, valid_utf8};
use crate::records::JobPhase;
use crate::scratch_disk::{disk_full_in_message, disk_full_spec};
use crate::status::{short_id, short_id_spec, uuid_hyphenated, uuid_text};
use crate::text::{
    ascii_lowercase, chars_of, contains_seq, push_str, str_eq, string_from_chars,
    to_ascii_lowercase, trim, trim_chars,
};
use crate::weburl::{opt_view, WebUrl};
use crate::ytdlp_errors::{
    failure_kind_slug, failure_slug_spec, has, user_message_for_kind, user_message_spec,
    YtDlpFailureKind,
};

verus! {

/// Largest file the Telegram Bot API lets a bot download: 20 MiB.
pub const TELEGRAM_MAX_BYTES: u64 = 20971520;

// ---------------------------------------------------------------------------
// Formats
// ---------------------------------------------------------------------------

/// The format a stored key selects: `video`, `audio`, anything else `best`.
pub open spec fn format_from_key(raw: Seq<char>) -> YtDlpFormat {
    if raw == "video"@ {
        YtDlpFormat::Video
    } else if raw == "audio"@ {
        YtDlpFormat::Audio
    } else {
        YtDlpFormat::Best
    }
}

/// The key under which a format is stored.
pub open spec fn format_key_text(f: YtDlpFormat) -> Seq<char> {
    match f {
        YtDlpFormat::Video => "video"@,
        YtDlpFormat::Audio => "audio"@,
        YtDlpFormat::Best => "best"@,
    }
}

/// Reads a stored format key; unknown keys mean the best available format.
pub fn parse_ytdlp_format(raw: &str) -> (res: YtDlpFormat)
    ensures
        res == format_from_key(raw@),
{
    if str_eq(raw, "video") {
        YtDlpFormat::Video
    } else if str_eq(raw, "audio") {
        YtDlpFormat::Audio
    } else {
        YtDlpFormat::Best
    }
}

/// The stored key of a format (`"video"`, `"audio"`, `"best"`).
pub fn format_key(f: YtDlpFormat) -> (res: &'static str)
    ensures
        res@ == format_key_text(f),
{
    match f {
        YtDlpFormat::Video => "video",
        YtDlpFormat::Audio => "audio",
        YtDlpFormat::Best => "best",
    }
}

/// Reading back the stored key of a format gives that format.
pub proof fn lemma_format_key_round_trip(f: YtDlpFormat)
    ensures
        format_from_key(format_key_text(f)) == f,
{
    reveal_strlit("video");
    reveal_strlit("audio");
    reveal_strlit("best");
    assert("video"@[0] != "audio"@[0]);
    assert("best"@.len() != "video"@.len());
    assert("best"@.len() != "audio"@.len());
}

// ---------------------------------------------------------------------------
// Local file names
// ---------------------------------------------------------------------------

/// The fallback name of a job's file: `file_` and the job's short id.
pub open spec fn fallback_name(job_id: Seq<u8>) -> Seq<char> {
    "file_"@ + short_id_spec(job_id)
}

/// The name of a Telegram file's local copy: the name it was sent with unless that is
/// blank, else the fallback.
pub open spec fn telegram_local_filename_spec(file_name: Option<Seq<char>>, job_id: Seq<u8>) -> Seq<
    char,
> {
    match file_name {
        Some(n) => if trim(n).len() > 0 {
            n
        } else {
            fallback_name(job_id)
        },
        None => fallback_name(job_id),
    }
}

fn fallback_file_name(job_id: &[u8; 16]) -> (res: String)
    ensures
        res@ == fallback_name(job_id@),
{
    let mut out = chars_of("file_");
    let id = short_id(job_id);
    push_str(&mut out, id.as_str());
    string_from_chars(out.as_slice())
}

/// The local name for a Telegram file: its own name unless blank, else `file_<short id>`.
pub fn telegram_local_filename(file_name: Option<&str>, job_id: &[u8; 16]) -> (res: String)
    ensures
        res@ == telegram_local_filename_spec(
            match file_name {
                Some(n) => Some(n@),
                None => None,
            },
            job_id@,
        ),
{
    match file_name {
        Some(name) => {
            let t = trim_chars(chars_of(name).as_slice());
            if t.len() > 0 {
                name.to_owned()
            } else {
                fallback_file_name(job_id)
            }
        },
        None => fallback_file_name(job_id),
    }
}

/// The local name of a direct download: the URL path's file name, else the fallback,
/// sanitised.
pub open spec fn direct_file_name_spec(path: Seq<char>, job_id: Seq<u8>) -> Seq<char> {
    sanitize_filename_spec(
        match url_path_filename_spec(path) {
            Some(n) => n,
            None => fallback_name(job_id),
        },
    )
}

/// The sanitised local file name for a direct download of `url`.
pub fn direct_file_name(url: &WebUrl, job_id: &[u8; 16]) -> (res: String)
    ensures
        res@ == direct_file_name_spec(url@.path, job_id@),
{
    let name = match filename_from_url_path(url) {
        Some(n) => n,
        None => fallback_file_name(job_id),
    };
    sanitize_filename(name.as_str())
}

/// The sanitised local file name for a Telegram file.
pub fn telegram_file_name(file_name: Option<&str>, job_id: &[u8; 16]) -> (res: String)
    ensures
        res@ == sanitize_filename_spec(
            telegram_local_filename_spec(
                match file_name {
                    Some(n) => Some(n@),
                    None => None,
                },
                job_id@,
            ),
        ),
{
    let name = telegram_local_filename(file_name, job_id);
    sanitize_filename(name.as_str())
}

/// The name a downloaded file is uploaded under: the last component of its path, or
/// `upload.bin` when the path has none.
pub fn upload_file_name(local_path: &str) -> (res: String)
    ensures
        res@ == match path_file_name_of(local_path@) {
            Some(n) => n,
            None => "upload.bin"@,
        },
{
    match path_file_name(local_path) {
        Some(n) => n,
        None => "upload.bin".to_owned(),
    }
}

/// The scratch directory of a job: `afrasyab/<job id>` under the temporary directory.
pub fn job_scratch_dir(temp_dir: &str, job_id: &[u8; 16]) -> (res: String)
    ensures
        res@ == path_joined(path_joined(temp_dir@, "afrasyab"@), uuid_hyphenated(job_id@)),
{
    let base = path_join(temp_dir, "afrasyab");
    let id = uuid_text(job_id);
    path_join(base.as_str(), id.as_str())
}

// ---------------------------------------------------------------------------
// What a job downloads
// ---------------------------------------------------------------------------

/// The fields of a job's stored source description that the runner reads; each is
/// present only when stored as a string.
#[derive(Debug, Clone)]
pub struct JobSource {
    pub url: Option<String>,
    pub format: Option<String>,
    pub file_id: Option<String>,
    pub file_name: Option<String>,
}

/// How a job's file is fetched.
#[derive(Debug, Clone)]
pub enum DownloadPlan {
    /// An HTTP download of the URL.
    Direct { url: String },
    /// A yt-dlp run on the URL in the chosen format.
    YtDlp { url: String, format: YtDlpFormat },
    /// A Telegram file fetched by id into a file of the given (sanitised) name.
    Telegram { file_id: String, file_name: String },
}

/// The plan for a job, or the reason its source description is unusable.
pub open spec fn plan_spec(
    source_type: SourceType,
    meta: JobSource,
    job_id: Seq<u8>,
    plan: DownloadPlan,
) -> bool {
    match source_type {
        SourceType::LinkDirect => match meta.url {
            Some(u) => plan matches DownloadPlan::Direct { url } && url@ == u@,
            None => false,
        },
        SourceType::LinkYtDlp | SourceType::PlaylistItem => match meta.url {
            Some(u) => plan matches DownloadPlan::YtDlp { url, format } && url@ == u@ && format
                == match meta.format {
                Some(f) => format_from_key(f@),
                None => YtDlpFormat::Best,
            },
            None => false,
        },
        SourceType::TelegramFile => match meta.file_id {
            Some(id) => plan matches DownloadPlan::Telegram { file_id, file_name } && file_id@
                == id@ && file_name@ == sanitize_filename_spec(
                telegram_local_filename_spec(opt_view(meta.file_name), job_id),
            ),
            None => false,
        },
    }
}

/// The error text when a job's source description lacks what its source needs.
pub open spec fn plan_error_text(source_type: SourceType) -> Seq<char> {
    match source_type {
        SourceType::LinkDirect => "direct job missing url"@,
        SourceType::LinkYtDlp | SourceType::PlaylistItem => "yt-dlp job missing url"@,
        SourceType::TelegramFile => "telegram job missing file_id"@,
    }
}

/// Decides how a job's file is fetched from its source and stored description.
pub fn plan_download(source_type: SourceType, meta: &JobSource, job_id: &[u8; 16]) -> (res:
    Result<DownloadPlan, &'static str>)
    ensures
        match res {
            Ok(p) => plan_spec(source_type, *meta, job_id@, p),
            Err(e) => e@ == plan_error_text(source_type) && match source_type {
                SourceType::TelegramFile => meta.file_id is None,
                _ => meta.url is None,
            },
        },
{
    match source_type {
        SourceType::LinkDirect => match &meta.url {
            Some(u) => Ok(DownloadPlan::Direct { url: u.clone() }),
            None => Err("direct job missing url"),
        },
        SourceType::LinkYtDlp | SourceType::PlaylistItem => match &meta.url {
            Some(u) => {
                let format = match &meta.format {
                    Some(f) => parse_ytdlp_format(f.as_str()),
                    None => YtDlpFormat::Best,
                };
                Ok(DownloadPlan::YtDlp { url: u.clone(), format })
            },
            None => Err("yt-dlp job missing url"),
        },
        SourceType::TelegramFile => match &meta.file_id {
            Some(id) => {
                let name = match &meta.file_name {
                    Some(n) => telegram_file_name(Some(n.as_str()), job_id),
                    None => telegram_file_name(None, job_id),
                };
                Ok(DownloadPlan::Telegram { file_id: id.clone(), file_name: name })
            },
            None => Err("telegram job missing file_id"),
        },
    }
}

/// The refusal of a job while scratch space is short.
pub fn disk_pressure_refusal(pressured: bool) -> (res: Option<&'static str>)
    ensures
        match res {
            Some(m) => pressured && m@ == user_message_spec(YtDlpFailureKind::DiskFull),
            None => !pressured,
        },
{
    if pressured {
        Some(user_message_for_kind(YtDlpFailureKind::DiskFull))
    } else {
        None
    }
}

/// Why a stored refresh token cannot be used.
#[derive(Debug, Clone, PartialEq, Eq)]
pub enum RefreshTokenError {
    /// The blob does not decrypt under the bot's key.
    Invalid,
    /// The decrypted bytes are not UTF-8; the conversion's error text.
    NotUtf8(String),
}

/// Decrypts a user's stored Google refresh token.
pub fn open_refresh_token(cipher: &TokenCipher, blob: &[u8]) -> (res: Result<
    String,
    RefreshTokenError,
>)
    ensures
        match res {
            Ok(t) => open_blob(cipher.key_spec(), blob@) matches Some(p) && valid_utf8(p)
                && t@ == decode_utf8(p),
            Err(RefreshTokenError::Invalid) => open_blob(cipher.key_spec(), blob@) is None,
            Err(RefreshTokenError::NotUtf8(m)) => open_blob(cipher.key_spec(), blob@) matches Some(
                p,
            ) && !valid_utf8(p) && m@ == utf8_error_text(p),
        },
{
    match cipher.decrypt(blob) {
        Err(_) => Err(RefreshTokenError::Invalid),
        Ok(bytes) => match string_from_utf8(bytes) {
            Ok(t) => Ok(t),
            Err(m) => Err(RefreshTokenError::NotUtf8(m)),
        },
    }
}

// ---------------------------------------------------------------------------
// Recording status changes
// ---------------------------------------------------------------------------

/// A status change is recorded when the lifecycle allows it from the stored status
/// (`Queued` when unreadable), and a failure is recorded from any status.
pub open spec fn records_status_change(stored: Option<JobStatus>, to: JobStatus) -> bool {
    let from = match stored {
        Some(s) => s,
        None => JobStatus::Queued,
    };
    allowed_transition(from, to) || to == JobStatus::Failed
}

/// Whether a status change is written to the job.
pub fn should_record_status(stored: Option<JobStatus>, to: JobStatus) -> (res: bool)
    ensures
        res == records_status_change(stored, to),
{
    let from = match stored {
        Some(s) => s,
        None => JobStatus::Queued,
    };
    crate::job::transition(from, to).is_ok() || to == JobStatus::Failed
}

/// A failure is always recorded, whatever the stored status.
pub proof fn lemma_failure_always_recorded(stored: Option<JobStatus>)
    ensures
        records_status_change(stored, JobStatus::Failed),
{
}

/// A job the runner moves forward has each of its changes recorded: from `Queued`
/// through `Downloading` and `Uploading` to `Completed`.
pub proof fn lemma_forward_changes_recorded()
    ensures
        records_status_change(Some(JobStatus::Queued), JobStatus::Downloading),
        records_status_change(Some(JobStatus::Downloading), JobStatus::Uploading),
        records_status_change(Some(JobStatus::Uploading), JobStatus::Completed),
        !records_status_change(Some(JobStatus::Queued), JobStatus::Completed),
{
}

/// A finished job only ever changes to `Failed`.
pub proof fn lemma_completed_job_only_fails(to: JobStatus)
    requires
        records_status_change(Some(JobStatus::Completed), to),
    ensures
        to == JobStatus::Failed,
{
}

/// The log phase reported after a recorded status change.
pub open spec fn phase_after_spec(to: JobStatus) -> Option<JobPhase> {
    match to {
        JobStatus::Uploading => Some(JobPhase::Uploading),
        JobStatus::Completed => Some(JobPhase::Completed),
        JobStatus::Failed => Some(JobPhase::Failed),
        JobStatus::Queued | JobStatus::Downloading => None,
    }
}

/// The log phase reported after recording `to`, if any.
pub fn phase_after_status(to: JobStatus) -> (res: Option<JobPhase>)
    ensures
        res == phase_after_spec(to),
{
    match to {
        JobStatus::Uploading => Some(JobPhase::Uploading),
        JobStatus::Completed => Some(JobPhase::Completed),
        JobStatus::Failed => Some(JobPhase::Failed),
        JobStatus::Queued | JobStatus::Downloading => None,
    }
}

// ---------------------------------------------------------------------------
// What a failed job reports
// ---------------------------------------------------------------------------

pub open spec fn mentions_google(low: Seq<char>) -> bool {
    contains_seq(low, "google credentials"@) || contains_seq(low, "refresh token"@)
        || contains_seq(low, "refresh access"@) || contains_seq(low, "oauth"@)
}

pub open spec fn mentions_folder(low: Seq<char>) -> bool {
    contains_seq(low, "drive folder"@) || contains_seq(low, "folder not configured"@)
}

pub open spec fn mentions_http(low: Seq<char>) -> bool {
    contains_seq(low, "http"@) || contains_seq(low, "get "@)
}

pub open spec fn mentions_telegram(low: Seq<char>) -> bool {
    contains_seq(low, "telegram"@) || contains_seq(low, "file is too big"@) || contains_seq(
        low,
        "20"@,
    )
}

pub open spec fn mentions_size_limit(low: Seq<char>) -> bool {
    contains_seq(low, "exceeds file limit"@) || contains_seq(low, "exceeded size limit"@)
        || contains_seq(low, "download exceeded size limit"@)
}

pub open spec fn mentions_upload(low: Seq<char>) -> bool {
    contains_seq(low, "upload"@) || contains_seq(low, "drive"@)
}

/// The sentence a failed job shows its user: the yt-dlp failure kind when the error
/// carries one, else the first rule that the (ASCII-lowercased) error text matches.
pub open spec fn user_facing_error_spec(kind: Option<YtDlpFailureKind>, msg: Seq<char>) -> Seq<
    char,
> {
    match kind {
        Some(k) => user_message_spec(k),
        None => {
            let low = ascii_lowercase(msg);
            if disk_full_spec(low) {
                user_message_spec(YtDlpFailureKind::DiskFull)
            } else if mentions_google(low) {
                "Google connection missing or expired. Run /connect."@
            } else if mentions_folder(low) {
                "Drive folder not set. Run /folder."@
            } else if contains_seq(low, "yt-dlp"@) {
                user_message_spec(YtDlpFailureKind::Other)
            } else if mentions_http(low) {
                "Download failed."@
            } else if mentions_telegram(low) {
                "Telegram file is too large (max 20 MB for bots). Send a direct link instead."@
            } else if mentions_size_limit(low) {
                "File is too large (max 2 GB)."@
            } else if mentions_upload(low) {
                "Google Drive upload failed: "@ + msg
            } else {
                "Job failed: "@ + msg
            }
        },
    }
}

/// The sentence shown for a failed job, from the yt-dlp failure kind found in the error
/// (if any) and the error's text.
pub fn user_facing_error(kind: Option<YtDlpFailureKind>, message: &str) -> (res: String)
    ensures
        res@ == user_facing_error_spec(kind, message@),
{
    if let Some(k) = kind {
        return user_message_for_kind(k).to_owned();
    }
    let low_chars = to_ascii_lowercase(chars_of(message).as_slice());
    let low_text = string_from_chars(low_chars.as_slice());
    let l = low_chars.as_slice();
    if disk_full_in_message(low_text.as_str()) {
        return user_message_for_kind(YtDlpFailureKind::DiskFull).to_owned();
    }
    if has(l, "google credentials") || has(l, "refresh token") || has(l, "refresh access") || has(
        l,
        "oauth",
    ) {
        return "Google connection missing or expired. Run /connect.".to_owned();
    }
    if has(l, "drive folder") || has(l, "folder not configured") {
        return "Drive folder not set. Run /folder.".to_owned();
    }
    if has(l, "yt-dlp") {
        return user_message_for_kind(YtDlpFailureKind::Other).to_owned();
    }
    if has(l, "http") || has(l, "get ") {
        return "Download failed.".to_owned();
    }
    if has(l, "telegram") || has(l, "file is too big") || has(l, "20") {
        return "Telegram file is too large (max 20 MB for bots). Send a direct link instead.".to_owned();
    }
    if has(l, "exceeds file limit") || has(l, "exceeded size limit") || has(
        l,
        "download exceeded size limit",
    ) {
        return "File is too large (max 2 GB).".to_owned();
    }
    if has(l, "upload") || has(l, "drive") {
        let mut out = chars_of("Google Drive upload failed: ");
        push_str(&mut out, message);
        return string_from_chars(out.as_slice());
    }
    let mut out = chars_of("Job failed: ");
    push_str(&mut out, message);
    string_from_chars(out.as_slice())
}

/// The failure kind logged for a failed job: the yt-dlp kind when the error carries
/// one, `disk_full` when its text reports a full disk, else none.
pub open spec fn failure_kind_spec(kind: Option<YtDlpFailureKind>, msg: Seq<char>) -> Option<
    Seq<char>,
> {
    match kind {
        Some(k) => Some(failure_slug_spec(k)),
        None => if disk_full_spec(msg) {
            Some(failure_slug_spec(YtDlpFailureKind::DiskFull))
        } else {
            None
        },
    }
}

/// The failure kind slug logged for a failed job.
pub fn failure_kind_for(kind: Option<YtDlpFailureKind>, message: &str) -> (res: Option<
    &'static str,
>)
    ensures
        match res {
            Some(s) => failure_kind_spec(kind, message@) == Some(s@),
            None => failure_kind_spec(kind, message@) is None,
        },
{
    match kind {
        Some(k) => Some(failure_kind_slug(k)),
        None => if disk_full_in_message(message) {
            Some(failure_kind_slug(YtDlpFailureKind::DiskFull))
        } else {
            None
        },
    }
}

/// What the runner does when a job fails.
#[derive(Debug, Clone)]
pub struct JobFailure {
    /// The error itself, as the run reports it.
    pub error: String,
    /// The sentence recorded on the job and shown to its user.
    pub user_message: String,
    /// The failure kind slug for the log.
    pub failure_kind: Option<&'static str>,
    /// Whether scratch space is to be treated as exhausted from now on.
    pub force_pressure: bool,
}

/// Decides what a failed job records, logs and does to the scratch-space switch.
pub fn job_failure(kind: Option<YtDlpFailureKind>, message: &str) -> (res: JobFailure)
    ensures
        res.error@ == message@,
        res.user_message@ == user_facing_error_spec(kind, message@),
        match res.failure_kind {
            Some(s) => failure_kind_spec(kind, message@) == Some(s@),
            None => failure_kind_spec(kind, message@) is None,
        },
        res.force_pressure == disk_full_spec(message@),
{
    JobFailure {
        error: message.to_owned(),
        user_message: user_facing_error(kind, message),
        failure_kind: failure_kind_for(kind, message),
        force_pressure: disk_full_in_message(message),
    }
}

} // verus!
