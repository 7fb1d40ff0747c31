//! The Google OAuth callback: checking the request, the pending state and the allowlist,
//! exchanging the code, storing the encrypted refresh token and creating the default
//! upload folder, each step's outcome decided here and the work done by the caller.
use vstd::prelude::*;
use crate::crypto::{open_blob, TokenCipher, MAX_PLAINTEXT};
use vstd::utf8::{decode_utf8, encode_utf8, valid_utf8};
use crate::replies::{oauth_param_missing, success_html, success_html_spec, OAuthRefusal};

verus! {

/// The name of the folder created in Drive when a user connects.
pub open spec fn default_folder_name() -> Seq<char> {
    "Afrasyab"@
}

/// Where the handling of a callback stands.
#[derive(Debug)]
pub enum CallbackStage {
    /// The request was not looked at yet.
    Checking,
    /// Taking the pending OAuth state out of the store.
    TakingState,
    /// Asking whether the Telegram user is allowed.
    CheckingAllowlist { telegram_user_id: i64 },
    /// Exchanging the authorization code at Google.
    Exchanging { telegram_user_id: i64 },
    /// Loading (or creating) the user's record.
    LoadingUser { refresh_token: String },
    /// Storing the encrypted refresh token.
    SavingCredentials { refresh_token: String },
    /// Obtaining a Drive access token for the default folder.
    Refreshing,
    /// Creating the default folder in Drive.
    CreatingFolder,
    /// Storing the default folder as the user's upload folder.
    SavingFolder,
    /// The answer was given.
    Finished,
}

/// How far a stage is along the callback; every step moves to a later stage, so the
/// handling of a callback ends.
pub open spec fn callback_rank(s: CallbackStage) -> nat {
    match s {
        CallbackStage::Checking => 0,
        CallbackStage::TakingState => 1,
        CallbackStage::CheckingAllowlist { .. } => 2,
        CallbackStage::Exchanging { .. } => 3,
        CallbackStage::LoadingUser { .. } => 4,
        CallbackStage::SavingCredentials { .. } => 5,
        CallbackStage::Refreshing => 6,
        CallbackStage::CreatingFolder => 7,
        CallbackStage::SavingFolder => 8,
        CallbackStage::Finished => 9,
    }
}

/// What the outside work of the last step reported.
#[derive(Debug)]
pub enum CallbackEvent {
    /// The step succeeded with nothing to report.
    Done,
    /// The step's work failed.
    Failed,
    /// The Telegram user the state was issued for, if the state was known.
    StateOwner(Option<i64>),
    /// Whether the user is on the allowlist.
    Allowed(bool),
    /// The OAuth client could not be built.
    ClientError,
    /// Google's token response: its refresh token, if it sent one.
    Tokens { refresh_token: Option<String> },
    /// A fresh Drive access token.
    AccessToken(String),
    /// The new folder's id and name.
    FolderCreated { folder_id: String, display: String },
}

/// The outside work of the next step.
#[derive(Debug)]
pub enum CallbackAction {
    TakeState { state: String },
    CheckAllowed { telegram_user_id: i64 },
    ExchangeCode { code: String },
    LoadUser { telegram_user_id: i64 },
    SaveCredentials { encrypted: Vec<u8> },
    RefreshAccess { refresh_token: String },
    CreateFolder { access_token: String, name: String },
    SaveFolder { folder_id: String, display: String },
    /// Answer with this page.
    Respond { html: String },
    /// Refuse the request.
    Refuse(OAuthRefusal),
}

/// Handles one request to the OAuth callback.
pub struct CallbackFlow {
    code: String,
    state: String,
    stage: CallbackStage,
}

impl CallbackFlow {
    /// The authorization code of the request.
    pub closed spec fn code_spec(&self) -> Seq<char> {
        self.code@
    }

    /// The OAuth state of the request.
    pub closed spec fn state_spec(&self) -> Seq<char> {
        self.state@
    }

    /// The stage.
    pub closed spec fn stage_spec(&self) -> CallbackStage {
        self.stage
    }

    /// Handling of a callback with the query parameters `code` and `state`.
    pub fn new(code: &str, state: &str) -> (res: Self)
        ensures
            res.code_spec() == code@,
            res.state_spec() == state@,
            res.stage_spec() is Checking,
    {
        CallbackFlow { code: code.to_owned(), state: state.to_owned(), stage: CallbackStage::Checking }
    }

    /// The first step: a request with an empty code or state is refused, otherwise its
    /// state is taken out of the store.
    pub fn start(&mut self) -> (res: CallbackAction)
        requires
            old(self).stage_spec() is Checking,
        ensures
            final(self).code_spec() == old(self).code_spec(),
            final(self).state_spec() == old(self).state_spec(),
            callback_rank(final(self).stage_spec()) > callback_rank(old(self).stage_spec()),
            if old(self).code_spec().len() == 0 || old(self).state_spec().len() == 0 {
                res == CallbackAction::Refuse(OAuthRefusal::BadRequest)
                    && final(self).stage_spec() is Finished
            } else {
                (res matches CallbackAction::TakeState { state } && state@ == old(self).state_spec())
                    && final(self).stage_spec() is TakingState
            },
    {
        if oauth_param_missing(self.code.as_str()) || oauth_param_missing(self.state.as_str()) {
            self.stage = CallbackStage::Finished;
            CallbackAction::Refuse(OAuthRefusal::BadRequest)
        } else {
            self.stage = CallbackStage::TakingState;
            CallbackAction::TakeState { state: self.state.clone() }
        }
    }

    /// Whether `event` reports the step the flow is at.
    pub open spec fn accepts(&self, event: CallbackEvent) -> bool {
        match self.stage_spec() {
            CallbackStage::Checking => false,
            CallbackStage::TakingState => event is StateOwner || event is Failed,
            CallbackStage::CheckingAllowlist { .. } => event is Allowed || event is Failed,
            CallbackStage::Exchanging { .. } => event is Tokens || event is Failed
                || event is ClientError,
            CallbackStage::LoadingUser { .. } => event is Done || event is Failed,
            CallbackStage::SavingCredentials { .. } => event is Done || event is Failed,
            CallbackStage::Refreshing => event is AccessToken || event is Failed,
            CallbackStage::CreatingFolder => event is FolderCreated || event is Failed,
            CallbackStage::SavingFolder => event is Done || event is Failed,
            CallbackStage::Finished => false,
        }
    }

    /// Decides the next step from what the last one reported.
    pub fn next(&mut self, event: CallbackEvent, cipher: &TokenCipher) -> (res: CallbackAction)
        requires
            old(self).accepts(event),
        ensures
            final(self).code_spec() == old(self).code_spec(),
            final(self).state_spec() == old(self).state_spec(),
            callback_rank(final(self).stage_spec()) > callback_rank(old(self).stage_spec()),
            match (old(self).stage_spec(), event) {
                (CallbackStage::TakingState, CallbackEvent::StateOwner(owner)) => match owner {
                    None => res == CallbackAction::Refuse(OAuthRefusal::BadRequest)
                        && final(self).stage_spec() is Finished,
                    Some(id) => res == (CallbackAction::CheckAllowed { telegram_user_id: id })
                        && final(self).stage_spec() == (CallbackStage::CheckingAllowlist {
                        telegram_user_id: id,
                    }),
                },
                (CallbackStage::CheckingAllowlist { telegram_user_id }, CallbackEvent::Allowed(a)) =>
                    if a {
                    (res matches CallbackAction::ExchangeCode { code } && code@ == old(self).code_spec())
                        && final(self).stage_spec() == (CallbackStage::Exchanging { telegram_user_id })
                } else {
                    res == CallbackAction::Refuse(OAuthRefusal::Forbidden)
                        && final(self).stage_spec() is Finished
                },
                (CallbackStage::Exchanging { telegram_user_id }, CallbackEvent::Tokens { refresh_token }) =>
                    match refresh_token {
                    None => res == CallbackAction::Refuse(OAuthRefusal::BadGateway)
                        && final(self).stage_spec() is Finished,
                    Some(t) => res == (CallbackAction::LoadUser { telegram_user_id })
                        && final(self).stage_spec() == (CallbackStage::LoadingUser {
                        refresh_token: t,
                    }),
                },
                (CallbackStage::Exchanging { .. }, CallbackEvent::Failed) => res
                    == CallbackAction::Refuse(OAuthRefusal::BadGateway)
                    && final(self).stage_spec() is Finished,
                (CallbackStage::Exchanging { .. }, CallbackEvent::ClientError) => res
                    == CallbackAction::Refuse(OAuthRefusal::Internal)
                    && final(self).stage_spec() is Finished,
                (CallbackStage::LoadingUser { refresh_token }, CallbackEvent::Done) =>
                    if encode_utf8(refresh_token@).len() <= MAX_PLAINTEXT {
                    (res matches CallbackAction::SaveCredentials { encrypted } && open_blob(
                        cipher.key_spec(),
                        encrypted@,
                    ) == Some(encode_utf8(refresh_token@))) && final(self).stage_spec() == (
                    CallbackStage::SavingCredentials { refresh_token })
                } else {
                    res == CallbackAction::Refuse(OAuthRefusal::BadGateway)
                        && final(self).stage_spec() is Finished
                },
                (CallbackStage::SavingCredentials { refresh_token }, CallbackEvent::Done) => res
                    == (CallbackAction::RefreshAccess { refresh_token })
                    && final(self).stage_spec() is Refreshing,
                (CallbackStage::Refreshing, CallbackEvent::AccessToken(access_token)) => (
                res matches CallbackAction::CreateFolder { access_token: a, name } && a
                    == access_token && name@ == default_folder_name())
                    && final(self).stage_spec() is CreatingFolder,
                (CallbackStage::CreatingFolder, CallbackEvent::FolderCreated { folder_id, display }) =>
                    res == (CallbackAction::SaveFolder { folder_id, display })
                    && final(self).stage_spec() is SavingFolder,
                (CallbackStage::SavingFolder, CallbackEvent::Done) => (res matches CallbackAction::Respond {
                    html,
                } && html@ == success_html_spec(true)) && final(self).stage_spec() is Finished,
                (CallbackStage::Refreshing, CallbackEvent::Failed)
                | (CallbackStage::CreatingFolder, CallbackEvent::Failed)
                | (CallbackStage::SavingFolder, CallbackEvent::Failed) => (
                res matches CallbackAction::Respond { html } && html@ == success_html_spec(false))
                    && final(self).stage_spec() is Finished,
                (_, CallbackEvent::Failed) => res == CallbackAction::Refuse(OAuthRefusal::Internal)
                    && final(self).stage_spec() is Finished,
                _ => true,
            },
    {
        let mut stage = CallbackStage::Finished;
        std::mem::swap(&mut stage, &mut self.stage);
        match (stage, event) {
            (CallbackStage::TakingState, CallbackEvent::StateOwner(owner)) => match owner {
                None => CallbackAction::Refuse(OAuthRefusal::BadRequest),
                Some(id) => {
                    self.stage = CallbackStage::CheckingAllowlist { telegram_user_id: id };
                    CallbackAction::CheckAllowed { telegram_user_id: id }
                },
            },
            (CallbackStage::CheckingAllowlist { telegram_user_id }, CallbackEvent::Allowed(a)) => {
                if a {
                    self.stage = CallbackStage::Exchanging { telegram_user_id };
                    CallbackAction::ExchangeCode { code: self.code.clone() }
                } else {
                    CallbackAction::Refuse(OAuthRefusal::Forbidden)
                }
            },
            (CallbackStage::Exchanging { telegram_user_id }, CallbackEvent::Tokens { refresh_token }) => {
                match refresh_token {
                    None => CallbackAction::Refuse(OAuthRefusal::BadGateway),
                    Some(t) => {
                        self.stage = CallbackStage::LoadingUser { refresh_token: t };
                        CallbackAction::LoadUser { telegram_user_id }
                    },
                }
            },
            (CallbackStage::Exchanging { .. }, CallbackEvent::Failed) => CallbackAction::Refuse(
                OAuthRefusal::BadGateway,
            ),
            (CallbackStage::Exchanging { .. }, CallbackEvent::ClientError) => CallbackAction::Refuse(
                OAuthRefusal::Internal,
            ),
            (CallbackStage::LoadingUser { refresh_token }, CallbackEvent::Done) => {
                let bytes = refresh_token.as_str().as_bytes();
                if bytes.len() as u64 <= MAX_PLAINTEXT {
                    let encrypted = cipher.encrypt(bytes);
                    self.stage = CallbackStage::SavingCredentials { refresh_token };
                    CallbackAction::SaveCredentials { encrypted }
                } else {
                    CallbackAction::Refuse(OAuthRefusal::BadGateway)
                }
            },
            (CallbackStage::SavingCredentials { refresh_token }, CallbackEvent::Done) => {
                self.stage = CallbackStage::Refreshing;
                CallbackAction::RefreshAccess { refresh_token }
            },
            (CallbackStage::Refreshing, CallbackEvent::AccessToken(access_token)) => {
                self.stage = CallbackStage::CreatingFolder;
                CallbackAction::CreateFolder { access_token, name: "Afrasyab".to_owned() }
            },
            (CallbackStage::CreatingFolder, CallbackEvent::FolderCreated { folder_id, display }) => {
                self.stage = CallbackStage::SavingFolder;
                CallbackAction::SaveFolder { folder_id, display }
            },
            (CallbackStage::SavingFolder, CallbackEvent::Done) => CallbackAction::Respond {
                html: success_html(true),
            },
            (CallbackStage::Refreshing, CallbackEvent::Failed)
            | (CallbackStage::CreatingFolder, CallbackEvent::Failed)
            | (CallbackStage::SavingFolder, CallbackEvent::Failed) => CallbackAction::Respond {
                html: success_html(false),
            },
            (_, _) => CallbackAction::Refuse(OAuthRefusal::Internal),
        }
    }
}

/// A refresh token stored by the callback is read back unchanged: the blob it saves opens
/// to bytes that are valid UTF-8 and decode to the token, which is what
/// [`crate::runner::open_refresh_token`] returns when jobs and folder changes use it.
pub proof fn lemma_stored_token_reads_back(key: Seq<u8>, blob: Seq<u8>, token: Seq<char>)
    requires
        open_blob(key, blob) == Some(encode_utf8(token)),
    ensures
        open_blob(key, blob) matches Some(p) && valid_utf8(p) && decode_utf8(p) == token,
{
    broadcast use vstd::utf8::encode_utf8_valid_utf8, vstd::utf8::encode_utf8_decode_utf8;

}

} // verus!
