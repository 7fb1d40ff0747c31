//! Taking a message as the name of the upload folder: whether the user was asked for
//! one, checking the name, renaming or creating the folder in Drive, and the replies.
use vstd::prelude::*;
use crate::crypto::{open_blob, TokenCipher};
use crate::records::FolderPendingMode;
use crate::replies::{
    folder_created_message, folder_created_text, folder_name_spec, folder_renamed_message,
    folder_renamed_text, parse_folder_name,
};
use crate::runner::{open_refresh_token, RefreshTokenError};
use crate::filename::utf8_error_text;
use vstd::utf8::{decode_utf8, valid_utf8};

verus! {

/// Where the handling of a possible folder name stands.
#[derive(Debug)]
pub enum FolderStage {
    /// Asking whether a folder name is awaited from the user.
    CheckingPending,
    /// Reading what the awaited name is for.
    LoadingMode,
    /// Loading (or creating) the user's record.
    LoadingUser { mode: FolderPendingMode, name: String },
    /// Reading the user's stored Google credentials.
    LoadingCredentials { mode: FolderPendingMode, name: String },
    /// Obtaining a Drive access token.
    Refreshing { mode: FolderPendingMode, name: String },
    /// Reading the user's current folder.
    LoadingFolder { mode: FolderPendingMode, name: String, access_token: String },
    /// Renaming the current folder in Drive.
    Renaming { folder_id: String },
    /// Creating a folder in Drive.
    Creating,
    /// Storing the folder as the user's upload folder; the confirmation to send after.
    Saving { confirmation: String },
    /// Forgetting that a name is awaited, then confirming.
    Clearing { confirmation: String },
    /// Marking the user's onboarding as complete, then confirming.
    Completing { confirmation: String },
    /// The last step is under way; the message was a folder name.
    Closing,
    /// Forgetting that a name is awaited, after refusing; then finished. `ignore_errors`
    /// says whether a failure to forget is ignored.
    ClearingAfterRefusal { ignore_errors: bool },
    /// Nothing is left to do.
    Finished { handled: bool },
}

/// How far a stage is along the handling; every step moves to a later stage, so the
/// handling of a message ends.
pub open spec fn folder_rank(s: FolderStage) -> nat {
    match s {
        FolderStage::CheckingPending => 0,
        FolderStage::LoadingMode => 1,
        FolderStage::LoadingUser { .. } => 2,
        FolderStage::LoadingCredentials { .. } => 3,
        FolderStage::Refreshing { .. } => 4,
        FolderStage::LoadingFolder { .. } => 5,
        FolderStage::Renaming { .. } => 6,
        FolderStage::Creating => 6,
        FolderStage::Saving { .. } => 7,
        FolderStage::Clearing { .. } => 8,
        FolderStage::Completing { .. } => 9,
        FolderStage::ClearingAfterRefusal { .. } => 10,
        FolderStage::Closing => 11,
        FolderStage::Finished { .. } => 12,
    }
}

/// What the outside work of the last step reported.
#[derive(Debug)]
pub enum FolderEvent {
    Done,
    /// Whether a folder name is awaited from the user.
    Pending(bool),
    /// What the awaited name is for, if still known.
    Mode(Option<FolderPendingMode>),
    /// The user's encrypted refresh token, if stored.
    Credentials(Option<Vec<u8>>),
    /// A fresh Drive access token.
    AccessToken(String),
    /// The id of the user's current folder, if any.
    Folder(Option<String>),
    /// The folder's name as Drive shows it after renaming.
    Renamed(String),
    /// The new folder's id and name.
    Created { folder_id: String, display: String },
}

/// The outside work of the next step.
#[derive(Debug)]
pub enum FolderAction {
    CheckPending,
    LoadMode,
    LoadUser,
    LoadCredentials,
    RefreshAccess { refresh_token: String },
    LoadFolder,
    RenameFolder { access_token: String, folder_id: String, name: String },
    CreateFolder { access_token: String, name: String },
    SaveFolder { folder_id: String, display: String },
    /// Forget that a name is awaited; `ignore_errors` says whether a failure to do so is
    /// ignored.
    ClearPending { ignore_errors: bool },
    MarkOnboarded,
    Reply { text: String },
    /// Stop with this error.
    Abort { message: String },
    /// Done; `handled` says whether the message was taken as a folder name.
    Finish { handled: bool },
}

/// Handles one message that may be a folder name.
pub struct FolderFlow {
    text: String,
    stage: FolderStage,
}

impl FolderFlow {
    /// The message text.
    pub closed spec fn text_spec(&self) -> Seq<char> {
        self.text@
    }

    /// The stage.
    pub closed spec fn stage_spec(&self) -> FolderStage {
        self.stage
    }

    /// Handling of the message `text`.
    pub fn new(text: &str) -> (res: Self)
        ensures
            res.text_spec() == text@,
            res.stage_spec() is CheckingPending,
    {
        FolderFlow { text: text.to_owned(), stage: FolderStage::CheckingPending }
    }

    /// The first step: ask whether a name is awaited.
    pub fn start(&self) -> (res: FolderAction)
        ensures
            res is CheckPending,
    {
        FolderAction::CheckPending
    }

    /// Whether `event` reports the step the flow is at.
    pub open spec fn accepts(&self, event: FolderEvent) -> bool {
        match self.stage_spec() {
            FolderStage::CheckingPending => event is Pending,
            FolderStage::LoadingMode => event is Mode,
            FolderStage::LoadingCredentials { .. } => event is Credentials,
            FolderStage::Refreshing { .. } => event is AccessToken,
            FolderStage::LoadingFolder { .. } => event is Folder,
            FolderStage::Renaming { .. } => event is Renamed,
            FolderStage::Creating => event is Created,
            _ => event is Done,
        }
    }

    /// Decides the next step from what the last one reported.
    pub fn next(&mut self, event: FolderEvent, cipher: &TokenCipher) -> (res: FolderAction)
        requires
            old(self).accepts(event),
        ensures
            final(self).text_spec() == old(self).text_spec(),
            !(old(self).stage_spec() is Finished) ==> folder_rank(final(self).stage_spec())
                > folder_rank(old(self).stage_spec()),
            match (old(self).stage_spec(), event) {
                (FolderStage::CheckingPending, FolderEvent::Pending(p)) => if p {
                    res is LoadMode && final(self).stage_spec() is LoadingMode
                } else {
                    res == (FolderAction::Finish { handled: false })
                },
                (FolderStage::LoadingMode, FolderEvent::Mode(m)) => match m {
                    None => res == (FolderAction::Finish { handled: false }),
                    Some(mode) => match folder_name_spec(old(self).text_spec()) {
                        Err(msg) => res matches FolderAction::Reply { text } && text@ == msg
                            && final(self).stage_spec() is Closing,
                        Ok(name) => res is LoadUser && (final(self).stage_spec() matches FolderStage::LoadingUser { mode: m2, name: n } && m2 == mode && n@ == name),
                    },
                },
                (FolderStage::LoadingUser { mode, name }, FolderEvent::Done) => res is LoadCredentials
                    && final(self).stage_spec() == (FolderStage::LoadingCredentials { mode, name }),
                (FolderStage::LoadingCredentials { mode, name }, FolderEvent::Credentials(blob)) =>
                    match blob {
                    None => res matches FolderAction::Reply { text } && text@
                        == "Connect Google first with /connect."@ && final(self).stage_spec() == (FolderStage::ClearingAfterRefusal { ignore_errors: true }),
                    Some(b) => match open_blob(cipher.key_spec(), b@) {
                        None => res matches FolderAction::Abort { message } && message@
                            == "stored Google credentials are invalid; use /connect"@,
                        Some(p) => if valid_utf8(p) {
                            res matches FolderAction::RefreshAccess { refresh_token }
                                && refresh_token@ == decode_utf8(p) && final(self).stage_spec()
                                == (FolderStage::Refreshing { mode, name })
                        } else {
                            res matches FolderAction::Abort { message } && message@
                                == utf8_error_text(p)
                        },
                    },
                },
                (FolderStage::Refreshing { mode, name }, FolderEvent::AccessToken(access_token)) =>
                    res is LoadFolder && final(self).stage_spec() == (FolderStage::LoadingFolder {
                    mode,
                    name,
                    access_token,
                }),
                (FolderStage::LoadingFolder { mode, name, access_token }, FolderEvent::Folder(current)) =>
                    match mode {
                    FolderPendingMode::Rename => match current {
                        None => res matches FolderAction::Reply { text } && text@
                            == "No folder to rename. Run /folder again."@ && final(self).stage_spec() == (FolderStage::ClearingAfterRefusal { ignore_errors: false }),
                        Some(folder_id) => res == (FolderAction::RenameFolder {
                            access_token,
                            folder_id,
                            name,
                        }) && final(self).stage_spec() == (FolderStage::Renaming { folder_id }),
                    },
                    FolderPendingMode::CreateNew => res == (FolderAction::CreateFolder {
                        access_token,
                        name,
                    }) && final(self).stage_spec() is Creating,
                },
                (FolderStage::Renaming { folder_id }, FolderEvent::Renamed(display)) => res == (
                FolderAction::SaveFolder { folder_id, display }) && (final(self).stage_spec() matches FolderStage::Saving { confirmation } && confirmation@ == folder_renamed_text(display@)),
                (FolderStage::Creating, FolderEvent::Created { folder_id, display }) => res == (
                FolderAction::SaveFolder { folder_id, display }) && (final(self).stage_spec() matches FolderStage::Saving { confirmation } && confirmation@ == folder_created_text(display@)),
                (FolderStage::Saving { confirmation }, FolderEvent::Done) => res == (
                FolderAction::ClearPending { ignore_errors: false }) && final(self).stage_spec()
                    == (FolderStage::Clearing { confirmation }),
                (FolderStage::Clearing { confirmation }, FolderEvent::Done) => res is MarkOnboarded
                    && final(self).stage_spec() == (FolderStage::Completing { confirmation }),
                (FolderStage::Completing { confirmation }, FolderEvent::Done) => res == (
                FolderAction::Reply { text: confirmation }) && final(self).stage_spec() is Closing,
                (FolderStage::ClearingAfterRefusal { ignore_errors }, FolderEvent::Done) => res == (
                FolderAction::ClearPending { ignore_errors }) && final(self).stage_spec() is Closing,
                (FolderStage::Closing, FolderEvent::Done) => res == (FolderAction::Finish {
                    handled: true,
                }),
                _ => true,
            },
    {
        let mut stage = FolderStage::Finished { handled: false };
        std::mem::swap(&mut stage, &mut self.stage);
        match (stage, event) {
            (FolderStage::CheckingPending, FolderEvent::Pending(p)) => {
                if p {
                    self.stage = FolderStage::LoadingMode;
                    FolderAction::LoadMode
                } else {
                    FolderAction::Finish { handled: false }
                }
            },
            (FolderStage::LoadingMode, FolderEvent::Mode(m)) => match m {
                None => FolderAction::Finish { handled: false },
                Some(mode) => match parse_folder_name(self.text.as_str()) {
                    Err(msg) => {
                        self.stage = FolderStage::Closing;
                        FolderAction::Reply { text: msg.to_owned() }
                    },
                    Ok(name) => {
                        self.stage = FolderStage::LoadingUser { mode, name };
                        FolderAction::LoadUser
                    },
                },
            },
            (FolderStage::LoadingUser { mode, name }, FolderEvent::Done) => {
                self.stage = FolderStage::LoadingCredentials { mode, name };
                FolderAction::LoadCredentials
            },
            (FolderStage::LoadingCredentials { mode, name }, FolderEvent::Credentials(blob)) => {
                match blob {
                    None => {
                        self.stage = FolderStage::ClearingAfterRefusal { ignore_errors: true };
                        FolderAction::Reply { text: "Connect Google first with /connect.".to_owned() }
                    },
                    Some(b) => match open_refresh_token(cipher, b.as_slice()) {
                        Ok(refresh_token) => {
                            self.stage = FolderStage::Refreshing { mode, name };
                            FolderAction::RefreshAccess { refresh_token }
                        },
                        Err(RefreshTokenError::Invalid) => FolderAction::Abort {
                            message: "stored Google credentials are invalid; use /connect".to_owned(),
                        },
                        Err(RefreshTokenError::NotUtf8(message)) => FolderAction::Abort { message },
                    },
                }
            },
            (FolderStage::Refreshing { mode, name }, FolderEvent::AccessToken(access_token)) => {
                self.stage = FolderStage::LoadingFolder { mode, name, access_token };
                FolderAction::LoadFolder
            },
            (FolderStage::LoadingFolder { mode, name, access_token }, FolderEvent::Folder(current)) => {
                match mode {
                    FolderPendingMode::Rename => match current {
                        None => {
                            self.stage = FolderStage::ClearingAfterRefusal { ignore_errors: false };
                            FolderAction::Reply {
                                text: "No folder to rename. Run /folder again.".to_owned(),
                            }
                        },
                        Some(folder_id) => {
                            let id = folder_id.clone();
                            self.stage = FolderStage::Renaming { folder_id: id };
                            FolderAction::RenameFolder { access_token, folder_id, name }
                        },
                    },
                    FolderPendingMode::CreateNew => {
                        self.stage = FolderStage::Creating;
                        FolderAction::CreateFolder { access_token, name }
                    },
                }
            },
            (FolderStage::Renaming { folder_id }, FolderEvent::Renamed(display)) => {
                self.stage = FolderStage::Saving { confirmation: folder_renamed_message(display.as_str()) };
                FolderAction::SaveFolder { folder_id, display }
            },
            (FolderStage::Creating, FolderEvent::Created { folder_id, display }) => {
                self.stage = FolderStage::Saving { confirmation: folder_created_message(display.as_str()) };
                FolderAction::SaveFolder { folder_id, display }
            },
            (FolderStage::Saving { confirmation }, FolderEvent::Done) => {
                self.stage = FolderStage::Clearing { confirmation };
                FolderAction::ClearPending { ignore_errors: false }
            },
            (FolderStage::Clearing { confirmation }, FolderEvent::Done) => {
                self.stage = FolderStage::Completing { confirmation };
                FolderAction::MarkOnboarded
            },
            (FolderStage::Completing { confirmation }, FolderEvent::Done) => {
                self.stage = FolderStage::Closing;
                FolderAction::Reply { text: confirmation }
            },
            (FolderStage::ClearingAfterRefusal { ignore_errors }, FolderEvent::Done) => {
                self.stage = FolderStage::Closing;
                FolderAction::ClearPending { ignore_errors }
            },
            (FolderStage::Closing, FolderEvent::Done) => {
                self.stage = FolderStage::Finished { handled: true };
                FolderAction::Finish { handled: true }
            },
            (FolderStage::Finished { handled }, _) => {
                self.stage = FolderStage::Finished { handled };
                FolderAction::Finish { handled }
            },
            (_, _) => FolderAction::Finish { handled: false },
        }
    }
}

} // verus!
