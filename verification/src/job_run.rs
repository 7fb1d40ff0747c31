//! One run of a job as a sequence of steps: each step names the outside work to do next
//! (a lookup, a status change, a download, an upload) and, from what that work reports,
//! decides the following step; any failure ends in marking the job failed.
use vstd::prelude::*;
use crate::crypto::{open_blob, TokenCipher};
use crate::job::{JobStatus, SourceType};
use crate::runner::{
    disk_pressure_refusal, job_failure, open_refresh_token, plan_download, plan_error_text,
    plan_spec, upload_file_name, user_facing_error_spec, failure_kind_spec, DownloadPlan,
    JobFailure, JobSource, RefreshTokenError,
};
use crate::filename::path_file_name_of;
use crate::ytdlp_errors::{user_message_spec, YtDlpFailureKind};
use crate::scratch_disk::disk_full_spec;
use vstd::utf8::{decode_utf8, valid_utf8};

verus! {

/// Where a job run stands, with what earlier steps produced.
#[derive(Debug)]
pub enum RunStage {
    /// The scratch directory is being made.
    Preparing,
    /// The job row is being read.
    LoadingJob,
    /// The job's user is being read.
    LoadingUser { source_type: SourceType, meta: JobSource },
    /// The user's Drive folder is being read.
    LoadingFolder { source_type: SourceType, meta: JobSource },
    /// The user's stored Google credentials are being read.
    LoadingCredentials { source_type: SourceType, meta: JobSource, folder_id: String },
    /// A Drive access token is being obtained.
    Refreshing { source_type: SourceType, meta: JobSource, folder_id: String },
    /// The job is being marked as downloading.
    MarkingDownloading {
        source_type: SourceType,
        meta: JobSource,
        folder_id: String,
        access_token: String,
    },
    /// The file is being downloaded.
    Downloading { folder_id: String, access_token: String },
    /// The job is being marked as uploading.
    MarkingUploading { folder_id: String, access_token: String, local_path: String },
    /// The file is being uploaded.
    Uploading,
    /// The Drive file id is being saved.
    SavingFileId,
    /// The job is being marked as completed.
    MarkingCompleted,
    /// The job is being marked as failed.
    Failing,
    /// Nothing is left to do.
    Finished,
}

/// What the outside work of the last step reported.
#[derive(Debug)]
pub enum RunEvent {
    /// The step succeeded and reports nothing.
    Done,
    /// The job row: its source (`None` when the stored name is unknown), its source
    /// description, and whether scratch space is short right now.
    JobFound { source_type: Option<SourceType>, meta: JobSource, pressured: bool },
    /// There is no such job.
    JobMissing,
    /// Whether the job's user exists.
    UserFound(bool),
    /// The id of the user's Drive folder, if one is set.
    FolderFound(Option<String>),
    /// The user's encrypted refresh token, if stored.
    CredentialsFound(Option<Vec<u8>>),
    /// A fresh Drive access token.
    AccessToken(String),
    /// The path of the downloaded file.
    Downloaded(String),
    /// The id Drive gave the uploaded file.
    Uploaded(String),
    /// The step failed with this error text; a failed yt-dlp run gives its kind.
    Failed { message: String, ytdlp_kind: Option<YtDlpFailureKind> },
}

/// The outside work of the next step.
#[derive(Debug)]
pub enum RunAction {
    LoadJob,
    LoadUser,
    LoadFolder,
    LoadCredentials,
    /// Exchange the refresh token for an access token.
    RefreshAccess { refresh_token: String },
    /// Record a status change (subject to the lifecycle, see `should_record_status`).
    SetStatus(JobStatus),
    /// Fetch the file as planned.
    Download(DownloadPlan),
    /// Upload the local file into the folder under the given name.
    Upload { access_token: String, folder_id: String, local_path: String, file_name: String },
    /// Save the Drive file id on the job.
    SaveFileId { file_id: String },
    /// Mark the job failed as decided.
    Fail(JobFailure),
    /// The run is over; `ok` says whether the job completed.
    Finish { ok: bool },
}

/// The failure decided for an error text, as `job_failure` decides it.
pub open spec fn is_failure_for(f: JobFailure, kind: Option<YtDlpFailureKind>, message: Seq<char>) -> bool {
    &&& f.error@ == message
    &&& f.user_message@ == user_facing_error_spec(kind, message)
    &&& match f.failure_kind {
        Some(s) => failure_kind_spec(kind, message) == Some(s@),
        None => failure_kind_spec(kind, message) is None,
    }
    &&& f.force_pressure == disk_full_spec(message)
}

/// The position of a stage in the run's order; failing comes after every other step,
/// finishing last.
pub open spec fn stage_rank(s: RunStage) -> nat {
    match s {
        RunStage::Preparing => 0,
        RunStage::LoadingJob => 1,
        RunStage::LoadingUser { .. } => 2,
        RunStage::LoadingFolder { .. } => 3,
        RunStage::LoadingCredentials { .. } => 4,
        RunStage::Refreshing { .. } => 5,
        RunStage::MarkingDownloading { .. } => 6,
        RunStage::Downloading { .. } => 7,
        RunStage::MarkingUploading { .. } => 8,
        RunStage::Uploading => 9,
        RunStage::SavingFileId => 10,
        RunStage::MarkingCompleted => 11,
        RunStage::Failing => 12,
        RunStage::Finished => 13,
    }
}

/// The run ends in a failure for `message` (with no yt-dlp kind).
pub open spec fn fails_with(a: RunAction, s: RunStage, message: Seq<char>) -> bool {
    &&& a matches RunAction::Fail(f) && is_failure_for(f, None, message)
    &&& s is Failing
}

/// A job run.
pub struct JobRun {
    job_id: [u8; 16],
    stage: RunStage,
    ok: bool,
}

impl JobRun {
    /// The job's id.
    pub closed spec fn job_id_spec(&self) -> Seq<u8> {
        self.job_id@
    }

    /// The stage.
    pub closed spec fn stage_spec(&self) -> RunStage {
        self.stage
    }

    /// Whether the run completed the job.
    pub closed spec fn ok_spec(&self) -> bool {
        self.ok
    }

    /// A run of the job with this id, about to prepare its scratch directory.
    pub fn new(job_id: &[u8; 16]) -> (res: Self)
        ensures
            res.job_id_spec() == job_id@,
            res.stage_spec() is Preparing,
            !res.ok_spec(),
    {
        JobRun { job_id: *job_id, stage: RunStage::Preparing, ok: false }
    }

    fn fail_with(&mut self, kind: Option<YtDlpFailureKind>, message: &str) -> (res: RunAction)
        ensures
            final(self).job_id_spec() == old(self).job_id_spec(),
            final(self).ok_spec() == old(self).ok_spec(),
            final(self).stage_spec() is Failing,
            res matches RunAction::Fail(f) && is_failure_for(f, kind, message@),
    {
        self.stage = RunStage::Failing;
        RunAction::Fail(job_failure(kind, message))
    }

    /// Whether `event` is a report of the step the run is at: a failure, or the result
    /// that step produces.
    pub open spec fn accepts(&self, event: RunEvent) -> bool {
        event is Failed || match self.stage_spec() {
            RunStage::Preparing => event is Done,
            RunStage::LoadingJob => event is JobFound || event is JobMissing,
            RunStage::LoadingUser { .. } => event is UserFound,
            RunStage::LoadingFolder { .. } => event is FolderFound,
            RunStage::LoadingCredentials { .. } => event is CredentialsFound,
            RunStage::Refreshing { .. } => event is AccessToken,
            RunStage::MarkingDownloading { .. } => event is Done,
            RunStage::Downloading { .. } => event is Downloaded,
            RunStage::MarkingUploading { .. } => event is Done,
            RunStage::Uploading => event is Uploaded,
            RunStage::SavingFileId => event is Done,
            RunStage::MarkingCompleted => event is Done,
            RunStage::Failing | RunStage::Finished => true,
        }
    }

    /// Decides the next step from what the last one reported.
    pub fn next(&mut self, event: RunEvent, cipher: &TokenCipher) -> (res: RunAction)
        requires
            old(self).accepts(event),
        ensures
            final(self).job_id_spec() == old(self).job_id_spec(),
            // Every step moves the run forward, so a run ends after at most thirteen steps.
            !(old(self).stage_spec() is Finished) ==> stage_rank(final(self).stage_spec())
                > stage_rank(old(self).stage_spec()),
            // A failed step (other than obtaining the access token) ends in marking the
            // job failed for its error; the token exchange fails as "refresh access token".
            match event {
                RunEvent::Failed { message, ytdlp_kind } => (!(old(self).stage_spec() is Failing)
                    && !(old(self).stage_spec() is Finished)) ==> (res matches RunAction::Fail(f)
                    && final(self).stage_spec() is Failing && if old(self).stage_spec() is Refreshing {
                    is_failure_for(f, None, "refresh access token"@)
                } else {
                    is_failure_for(f, ytdlp_kind, message@)
                }),
                _ => true,
            },
            // Marking the job failed, and anything after the end, finishes the run; only a
            // run that marked its job completed finishes with `ok`.
            (old(self).stage_spec() is Failing || old(self).stage_spec() is Finished)
                ==> final(self).stage_spec() is Finished && res is Finish,
            old(self).stage_spec() is Failing ==> res == (RunAction::Finish { ok: false }),
            old(self).stage_spec() is Finished ==> res == (RunAction::Finish {
                ok: old(self).ok_spec(),
            }),
            final(self).ok_spec() == (old(self).ok_spec() || (old(self).stage_spec() is MarkingCompleted
                && event is Done)),
            (res matches RunAction::Finish { ok } && ok) ==> (old(self).stage_spec() is MarkingCompleted
                || (old(self).stage_spec() is Finished && old(self).ok_spec())),
            match (old(self).stage_spec(), event) {
                (RunStage::Preparing, RunEvent::Done) => res is LoadJob
                    && final(self).stage_spec() is LoadingJob,
                (RunStage::LoadingJob, RunEvent::JobMissing) => fails_with(
                    res,
                    final(self).stage_spec(),
                    "job not found"@,
                ),
                (RunStage::LoadingJob, RunEvent::JobFound { source_type, meta, pressured }) =>
                    match source_type {
                    None => fails_with(
                        res,
                        final(self).stage_spec(),
                        "unknown source_type in database"@,
                    ),
                    Some(t) => if pressured {
                        fails_with(
                            res,
                            final(self).stage_spec(),
                            user_message_spec(YtDlpFailureKind::DiskFull),
                        )
                    } else {
                        res is LoadUser && final(self).stage_spec() == (RunStage::LoadingUser {
                            source_type: t,
                            meta,
                        })
                    },
                },
                (RunStage::LoadingUser { source_type, meta }, RunEvent::UserFound(found)) => if found {
                    res is LoadFolder && final(self).stage_spec() == (RunStage::LoadingFolder {
                        source_type,
                        meta,
                    })
                } else {
                    fails_with(res, final(self).stage_spec(), "user not found"@)
                },
                (RunStage::LoadingFolder { source_type, meta }, RunEvent::FolderFound(folder)) =>
                    match folder {
                    Some(folder_id) => res is LoadCredentials && final(self).stage_spec() == (
                    RunStage::LoadingCredentials { source_type, meta, folder_id }),
                    None => fails_with(
                        res,
                        final(self).stage_spec(),
                        "drive folder not configured"@,
                    ),
                },
                (
                    RunStage::LoadingCredentials { source_type, meta, folder_id },
                    RunEvent::CredentialsFound(blob),
                ) => match blob {
                    None => fails_with(
                        res,
                        final(self).stage_spec(),
                        "google credentials missing"@,
                    ),
                    Some(b) => match open_blob(cipher.key_spec(), b@) {
                        None => fails_with(
                            res,
                            final(self).stage_spec(),
                            "google credentials invalid"@,
                        ),
                        Some(p) => if valid_utf8(p) {
                            res matches RunAction::RefreshAccess { refresh_token }
                                && refresh_token@ == decode_utf8(p) && final(self).stage_spec()
                                == (RunStage::Refreshing { source_type, meta, folder_id })
                        } else {
                            fails_with(
                                res,
                                final(self).stage_spec(),
                                "refresh token is not valid utf-8"@,
                            )
                        },
                    },
                },
                (
                    RunStage::Refreshing { source_type, meta, folder_id },
                    RunEvent::AccessToken(access_token),
                ) => res == RunAction::SetStatus(JobStatus::Downloading) && final(self).stage_spec()
                    == (RunStage::MarkingDownloading { source_type, meta, folder_id, access_token }),
                (
                    RunStage::MarkingDownloading { source_type, meta, folder_id, access_token },
                    RunEvent::Done,
                ) => match res {
                    RunAction::Download(p) => plan_spec(source_type, meta, old(self).job_id_spec(), p)
                        && final(self).stage_spec() == (RunStage::Downloading {
                        folder_id,
                        access_token,
                    }),
                    _ => fails_with(res, final(self).stage_spec(), plan_error_text(source_type))
                        && match source_type {
                        SourceType::TelegramFile => meta.file_id is None,
                        _ => meta.url is None,
                    },
                },
                (RunStage::Downloading { folder_id, access_token }, RunEvent::Downloaded(local_path)) =>
                    res == RunAction::SetStatus(JobStatus::Uploading) && final(self).stage_spec()
                    == (RunStage::MarkingUploading { folder_id, access_token, local_path }),
                (RunStage::MarkingUploading { folder_id, access_token, local_path }, RunEvent::Done) =>
                    res matches RunAction::Upload { access_token: a, folder_id: d, local_path: l, file_name }
                    && a == access_token && d == folder_id && l == local_path && file_name@ == match path_file_name_of(
                    local_path@,
                ) {
                    Some(n) => n,
                    None => "upload.bin"@,
                } && final(self).stage_spec() is Uploading,
                (RunStage::Uploading, RunEvent::Uploaded(file_id)) => res == (RunAction::SaveFileId {
                    file_id,
                }) && final(self).stage_spec() is SavingFileId,
                (RunStage::SavingFileId, RunEvent::Done) => res == RunAction::SetStatus(
                    JobStatus::Completed,
                ) && final(self).stage_spec() is MarkingCompleted,
                (RunStage::MarkingCompleted, RunEvent::Done) => res == (RunAction::Finish { ok: true })
                    && final(self).stage_spec() is Finished,
                _ => true,
            },
    {
        let mut stage = RunStage::Finished;
        std::mem::swap(&mut stage, &mut self.stage);
        match (stage, event) {
            (RunStage::Failing, _) => {
                self.stage = RunStage::Finished;
                RunAction::Finish { ok: false }
            },
            (RunStage::Finished, _) => {
                self.stage = RunStage::Finished;
                RunAction::Finish { ok: self.ok }
            },
            (RunStage::Refreshing { .. }, RunEvent::Failed { .. }) => {
                self.fail_with(None, "refresh access token")
            },
            (_, RunEvent::Failed { message, ytdlp_kind }) => {
                self.fail_with(ytdlp_kind, message.as_str())
            },
            (RunStage::Preparing, RunEvent::Done) => {
                self.stage = RunStage::LoadingJob;
                RunAction::LoadJob
            },
            (RunStage::LoadingJob, RunEvent::JobMissing) => self.fail_with(None, "job not found"),
            (RunStage::LoadingJob, RunEvent::JobFound { source_type, meta, pressured }) => {
                match source_type {
                    None => self.fail_with(None, "unknown source_type in database"),
                    Some(t) => match disk_pressure_refusal(pressured) {
                        Some(refusal) => self.fail_with(None, refusal),
                        None => {
                            self.stage = RunStage::LoadingUser { source_type: t, meta };
                            RunAction::LoadUser
                        },
                    },
                }
            },
            (RunStage::LoadingUser { source_type, meta }, RunEvent::UserFound(found)) => {
                if found {
                    self.stage = RunStage::LoadingFolder { source_type, meta };
                    RunAction::LoadFolder
                } else {
                    self.fail_with(None, "user not found")
                }
            },
            (RunStage::LoadingFolder { source_type, meta }, RunEvent::FolderFound(folder)) => {
                match folder {
                    Some(folder_id) => {
                        self.stage = RunStage::LoadingCredentials { source_type, meta, folder_id };
                        RunAction::LoadCredentials
                    },
                    None => self.fail_with(None, "drive folder not configured"),
                }
            },
            (
                RunStage::LoadingCredentials { source_type, meta, folder_id },
                RunEvent::CredentialsFound(blob),
            ) => match blob {
                None => self.fail_with(None, "google credentials missing"),
                Some(b) => match open_refresh_token(cipher, b.as_slice()) {
                    Ok(refresh_token) => {
                        self.stage = RunStage::Refreshing { source_type, meta, folder_id };
                        RunAction::RefreshAccess { refresh_token }
                    },
                    Err(RefreshTokenError::Invalid) => self.fail_with(
                        None,
                        "google credentials invalid",
                    ),
                    Err(RefreshTokenError::NotUtf8(_)) => self.fail_with(
                        None,
                        "refresh token is not valid utf-8",
                    ),
                },
            },
            (
                RunStage::Refreshing { source_type, meta, folder_id },
                RunEvent::AccessToken(access_token),
            ) => {
                self.stage = RunStage::MarkingDownloading {
                    source_type,
                    meta,
                    folder_id,
                    access_token,
                };
                RunAction::SetStatus(JobStatus::Downloading)
            },
            (
                RunStage::MarkingDownloading { source_type, meta, folder_id, access_token },
                RunEvent::Done,
            ) => match plan_download(source_type, &meta, &self.job_id) {
                Ok(plan) => {
                    self.stage = RunStage::Downloading { folder_id, access_token };
                    RunAction::Download(plan)
                },
                Err(m) => self.fail_with(None, m),
            },
            (
                RunStage::Downloading { folder_id, access_token },
                RunEvent::Downloaded(local_path),
            ) => {
                self.stage = RunStage::MarkingUploading { folder_id, access_token, local_path };
                RunAction::SetStatus(JobStatus::Uploading)
            },
            (
                RunStage::MarkingUploading { folder_id, access_token, local_path },
                RunEvent::Done,
            ) => {
                let file_name = upload_file_name(local_path.as_str());
                self.stage = RunStage::Uploading;
                RunAction::Upload { access_token, folder_id, local_path, file_name }
            },
            (RunStage::Uploading, RunEvent::Uploaded(file_id)) => {
                self.stage = RunStage::SavingFileId;
                RunAction::SaveFileId { file_id }
            },
            (RunStage::SavingFileId, RunEvent::Done) => {
                self.stage = RunStage::MarkingCompleted;
                RunAction::SetStatus(JobStatus::Completed)
            },
            (RunStage::MarkingCompleted, RunEvent::Done) => {
                self.ok = true;
                self.stage = RunStage::Finished;
                RunAction::Finish { ok: true }
            },
            (_, _) => {
                self.stage = RunStage::Finished;
                RunAction::Finish { ok: false }
            },
        }
    }
}

} // verus!
