//! The bot's replies and decisions around onboarding: who may queue jobs, what `/start`
//! and `/folder` answer, folder names, admin answers, playlist acknowledgements, and
//! the OAuth pages and links.
use vstd::prelude::*;
use crate::commands::{help_text, help_text_spec, AdminCommand};
use crate::text::{
    chars_of, push_chars, push_signed_decimal, push_str, signed_decimal,
    string_from_chars, trim, trim_chars,
};

verus! {

/// The reply to users who are not on the allowlist.
pub open spec fn access_denied_text() -> Seq<char> {
    "You don't have access to Afrasyab. Ask the admin."@
}

/// The reply to users who are not on the allowlist.
pub fn access_denied_message() -> (res: &'static str)
    ensures
        res@ == access_denied_text(),
{
    "You don't have access to Afrasyab. Ask the admin."
}

/// The allowlist guard: a user passes only when the allowlist lookup succeeded and found
/// them (`allowed` is `None` when the lookup failed); everyone else gets the denial.
pub fn require_allowed(allowed: Option<bool>) -> (res: Result<(), &'static str>)
    ensures
        res is Ok <==> allowed == Some(true),
        match res {
            Ok(_) => true,
            Err(m) => m@ == access_denied_text(),
        },
{
    match allowed {
        Some(true) => Ok(()),
        _ => Err(access_denied_message()),
    }
}

// ---------------------------------------------------------------------------
// Onboarding
// ---------------------------------------------------------------------------

/// How far a user is with setting up the bot.
#[derive(Debug, Clone, Copy, PartialEq, Eq, Structural)]
pub enum OnboardingState {
    NotAllowed,
    NeedsGoogle,
    NeedsFolder,
    Ready,
}

/// The onboarding state from what is stored for the user: Google credentials first,
/// then a Drive folder.
pub open spec fn onboarding_spec(has_credentials: bool, has_folder: bool) -> OnboardingState {
    if !has_credentials {
        OnboardingState::NeedsGoogle
    } else if !has_folder {
        OnboardingState::NeedsFolder
    } else {
        OnboardingState::Ready
    }
}

/// Decides the onboarding state of a user.
pub fn onboarding_state_from(has_credentials: bool, has_folder: bool) -> (res: OnboardingState)
    ensures
        res == onboarding_spec(has_credentials, has_folder),
{
    if !has_credentials {
        OnboardingState::NeedsGoogle
    } else if !has_folder {
        OnboardingState::NeedsFolder
    } else {
        OnboardingState::Ready
    }
}

/// The `/start` reply for a state; `None` where `/start` continues with `/connect`.
pub open spec fn start_reply_spec(state: OnboardingState, folder_name: Option<Seq<char>>) -> Option<
    Seq<char>,
> {
    match state {
        OnboardingState::NeedsGoogle => None,
        OnboardingState::NeedsFolder => Some(
            "Google Drive is connected. Run /folder to set up your upload folder."@,
        ),
        OnboardingState::Ready => Some(
            "Afrasyab is ready.\nUpload folder: "@ + match folder_name {
                Some(n) => n,
                None => "your folder"@,
            } + "\n\nSend links or files to download. "@ + help_text_spec(),
        ),
        OnboardingState::NotAllowed => Some(access_denied_text()),
    }
}

/// The reply to `/start`, given the user's state and the stored folder name.
pub fn start_reply(state: OnboardingState, folder_name: Option<&str>) -> (res: Option<String>)
    ensures
        match res {
            Some(r) => start_reply_spec(
                state,
                match folder_name {
                    Some(n) => Some(n@),
                    None => None,
                },
            ) == Some(r@),
            None => start_reply_spec(
                state,
                match folder_name {
                    Some(n) => Some(n@),
                    None => None,
                },
            ) is None,
        },
{
    match state {
        OnboardingState::NeedsGoogle => None,
        OnboardingState::NeedsFolder => Some(
            "Google Drive is connected. Run /folder to set up your upload folder.".to_owned(),
        ),
        OnboardingState::Ready => {
            let mut out = chars_of("Afrasyab is ready.\nUpload folder: ");
            match folder_name {
                Some(n) => push_str(&mut out, n),
                None => push_str(&mut out, "your folder"),
            }
            push_str(&mut out, "\n\nSend links or files to download. ");
            let help = help_text();
            push_str(&mut out, help.as_str());
            Some(string_from_chars(out.as_slice()))
        },
        OnboardingState::NotAllowed => Some(access_denied_message().to_owned()),
    }
}

/// The result of looking something up for a user.
#[derive(Debug, Clone, Copy, PartialEq, Eq, Structural)]
pub enum Lookup {
    /// The lookup itself failed.
    Failed,
    Missing,
    Present,
}

/// Whether a user can queue jobs, and the reason why not: the credentials are checked
/// first; the folder lookup only counts when they are present.
pub open spec fn readiness_spec(credentials: Lookup, folder: Lookup) -> Result<(), Seq<char>> {
    match credentials {
        Lookup::Failed => Err("Could not verify your Google connection. Try again or use /connect."@),
        Lookup::Missing => Err("Connect Google Drive first with /connect."@),
        Lookup::Present => match folder {
            Lookup::Failed => Err("Could not verify your Drive folder. Try /folder."@),
            Lookup::Missing => Err("Set up your upload folder with /folder before sending files."@),
            Lookup::Present => Ok(()),
        },
    }
}

/// Decides whether a user may queue jobs, with the reply when not.
pub fn job_readiness(credentials: Lookup, folder: Lookup) -> (res: Result<(), &'static str>)
    ensures
        match res {
            Ok(_) => readiness_spec(credentials, folder) is Ok,
            Err(m) => readiness_spec(credentials, folder) == Err::<(), Seq<char>>(m@),
        },
{
    match credentials {
        Lookup::Failed => Err("Could not verify your Google connection. Try again or use /connect."),
        Lookup::Missing => Err("Connect Google Drive first with /connect."),
        Lookup::Present => match folder {
            Lookup::Failed => Err("Could not verify your Drive folder. Try /folder."),
            Lookup::Missing => Err("Set up your upload folder with /folder before sending files."),
            Lookup::Present => Ok(()),
        },
    }
}

/// A user may queue jobs exactly when both credentials and folder are present.
pub proof fn lemma_ready_iff_both_present(credentials: Lookup, folder: Lookup)
    ensures
        readiness_spec(credentials, folder) is Ok <==> (credentials == Lookup::Present && folder
            == Lookup::Present),
        readiness_spec(credentials, folder) is Ok <==> onboarding_spec(
            credentials == Lookup::Present,
            folder == Lookup::Present,
        ) == OnboardingState::Ready,
{
}

// ---------------------------------------------------------------------------
// Folders
// ---------------------------------------------------------------------------

/// What `/folder` does next.
#[derive(Debug, Clone, Copy, PartialEq, Eq, Structural)]
pub enum FolderCommandStep {
    /// No Google credentials: ask to connect first.
    NeedConnect,
    /// A folder exists: offer to rename it or create another.
    ChooseAction,
    /// No folder yet: wait for a name for a new one.
    AskName,
}

/// Decides what `/folder` does.
pub fn folder_command_step(has_credentials: bool, has_folder: bool) -> (res: FolderCommandStep)
    ensures
        res == if !has_credentials {
            FolderCommandStep::NeedConnect
        } else if has_folder {
            FolderCommandStep::ChooseAction
        } else {
            FolderCommandStep::AskName
        },
{
    if !has_credentials {
        FolderCommandStep::NeedConnect
    } else if has_folder {
        FolderCommandStep::ChooseAction
    } else {
        FolderCommandStep::AskName
    }
}

/// A folder name as typed: trimmed, not empty, not a command, 1 to 100 characters.
pub open spec fn folder_name_spec(input: Seq<char>) -> Result<Seq<char>, Seq<char>> {
    let name = trim(input);
    if name.len() == 0 {
        Err("Name cannot be empty."@)
    } else if name[0] == '/' {
        Err("That looks like a command, not a folder name."@)
    } else if name.len() > 100 {
        Err("Name must be at most 100 characters."@)
    } else {
        Ok(name)
    }
}

/// Checks a folder name sent by a user and returns it trimmed.
pub fn parse_folder_name(input: &str) -> (res: Result<String, &'static str>)
    ensures
        match res {
            Ok(n) => folder_name_spec(input@) == Ok::<Seq<char>, Seq<char>>(n@),
            Err(m) => folder_name_spec(input@) == Err::<Seq<char>, Seq<char>>(m@),
        },
{
    let name = trim_chars(chars_of(input).as_slice());
    if name.len() == 0 {
        return Err("Name cannot be empty.");
    }
    if name[0] == '/' {
        return Err("That looks like a command, not a folder name.");
    }
    if name.len() > 100 {
        return Err("Name must be at most 100 characters.");
    }
    Ok(string_from_chars(name.as_slice()))
}

/// The confirmation after renaming the folder.
pub open spec fn folder_renamed_text(display: Seq<char>) -> Seq<char> {
    "Folder renamed to \u{201c}"@ + display + "\u{201d}."@
}

/// The confirmation after creating a folder.
pub open spec fn folder_created_text(display: Seq<char>) -> Seq<char> {
    "Uploads now go to \u{201c}"@ + display + "\u{201d}."@
}

/// The confirmation after renaming the upload folder to `display`.
pub fn folder_renamed_message(display: &str) -> (res: String)
    ensures
        res@ == folder_renamed_text(display@),
{
    let mut out = chars_of("Folder renamed to \u{201c}");
    push_str(&mut out, display);
    push_str(&mut out, "\u{201d}.");
    string_from_chars(out.as_slice())
}

/// The confirmation after creating the upload folder `display`.
pub fn folder_created_message(display: &str) -> (res: String)
    ensures
        res@ == folder_created_text(display@),
{
    let mut out = chars_of("Uploads now go to \u{201c}");
    push_str(&mut out, display);
    push_str(&mut out, "\u{201d}.");
    string_from_chars(out.as_slice())
}

// ---------------------------------------------------------------------------
// Admin answers
// ---------------------------------------------------------------------------

/// Allowlisted ids, one per line.
pub open spec fn id_lines(ids: Seq<i64>) -> Seq<char>
    decreases ids.len(),
{
    if ids.len() == 0 {
        Seq::empty()
    } else if ids.len() == 1 {
        signed_decimal(ids[0] as int)
    } else {
        id_lines(ids.drop_last()) + seq!['\n'] + signed_decimal(ids.last() as int)
    }
}

/// The answer to an admin command once it has been carried out; `ids` is the allowlist
/// for `/listusers`.
pub open spec fn admin_reply_spec(cmd: AdminCommand, ids: Seq<i64>) -> Seq<char> {
    match cmd {
        AdminCommand::Adduser(t) => "Added user "@ + signed_decimal(t as int) + "."@,
        AdminCommand::Removeuser(t) => "Removed user "@ + signed_decimal(t as int) + "."@,
        AdminCommand::Listusers => if ids.len() == 0 {
            "No allowlisted users."@
        } else {
            "Allowlisted users:\n"@ + id_lines(ids)
        },
    }
}

/// The answer to an admin command.
pub fn admin_reply(cmd: AdminCommand, ids: &Vec<i64>) -> (res: String)
    ensures
        res@ == admin_reply_spec(cmd, ids@),
{
    match cmd {
        AdminCommand::Adduser(t) => {
            let mut out = chars_of("Added user ");
            push_signed_decimal(&mut out, t);
            push_str(&mut out, ".");
            string_from_chars(out.as_slice())
        },
        AdminCommand::Removeuser(t) => {
            let mut out = chars_of("Removed user ");
            push_signed_decimal(&mut out, t);
            push_str(&mut out, ".");
            string_from_chars(out.as_slice())
        },
        AdminCommand::Listusers => {
            if ids.len() == 0 {
                return "No allowlisted users.".to_owned();
            }
            let mut body: Vec<char> = Vec::new();
            let mut k: usize = 0;
            while k < ids.len()
                invariant
                    k <= ids@.len(),
                    ids@.len() > 0,
                    body@ == id_lines(ids@.take(k as int)),
                decreases ids@.len() - k,
            {
                if k > 0 {
                    body.push('\n');
                }
                push_signed_decimal(&mut body, ids[k]);
                assert(ids@.take(k + 1).drop_last() =~= ids@.take(k as int));
                assert(body@ =~= id_lines(ids@.take(k + 1)));
                k = k + 1;
            }
            assert(ids@.take(ids@.len() as int) =~= ids@);
            let mut out = chars_of("Allowlisted users:\n");
            push_chars(&mut out, body.as_slice());
            string_from_chars(out.as_slice())
        },
    }
}

// ---------------------------------------------------------------------------
// Acknowledgements of button presses
// ---------------------------------------------------------------------------

/// The answer to a format button: whether the job was queued.
pub fn format_ack(queued: bool) -> (res: &'static str)
    ensures
        res@ == if queued {
            "Queued."@
        } else {
            "Not queued \u{2014} complete /connect and /folder first."@
        },
{
    if queued {
        "Queued."
    } else {
        "Not queued \u{2014} complete /connect and /folder first."
    }
}

/// The answer to the playlist confirmation after queueing `total` items.
pub fn playlist_queued_ack(total: i32) -> (res: String)
    ensures
        res@ == "Queued "@ + signed_decimal(total as int) + " items."@,
{
    let mut out = chars_of("Queued ");
    push_signed_decimal(&mut out, total as i64);
    push_str(&mut out, " items.");
    string_from_chars(out.as_slice())
}

/// The edited playlist prompt after queueing `total` items.
pub fn playlist_queued_note(total: i32) -> (res: String)
    ensures
        res@ == "Queued "@ + signed_decimal(total as int) + " playlist items."@,
{
    let mut out = chars_of("Queued ");
    push_signed_decimal(&mut out, total as i64);
    push_str(&mut out, " playlist items.");
    string_from_chars(out.as_slice())
}

/// The progress recorded for the playlist item at `index` of `total`: its position
/// counted from one, and the total.
pub fn playlist_item_progress(index: usize, total: usize) -> (res: (i32, i32))
    requires
        index < total,
        total <= i32::MAX,
    ensures
        res.0 == index + 1,
        res.1 == total,
{
    ((index as i32) + 1, total as i32)
}

// ---------------------------------------------------------------------------
// OAuth pages and links
// ---------------------------------------------------------------------------

/// The link that starts connecting Google Drive for a pending OAuth state.
pub fn oauth_start_url(public_base_url: &str, state: &str) -> (res: String)
    ensures
        res@ == public_base_url@ + "/oauth/google?state="@ + state@,
{
    let mut out = chars_of(public_base_url);
    push_str(&mut out, "/oauth/google?state=");
    push_str(&mut out, state);
    string_from_chars(out.as_slice())
}

/// Where Google sends the browser back after consent.
pub fn oauth_redirect_url(public_base_url: &str) -> (res: String)
    ensures
        res@ == public_base_url@ + "/oauth/google/callback"@,
{
    let mut out = chars_of(public_base_url);
    push_str(&mut out, "/oauth/google/callback");
    string_from_chars(out.as_slice())
}

/// Where Telegram delivers updates in webhook mode.
pub fn telegram_webhook_url(public_base_url: &str) -> (res: String)
    ensures
        res@ == public_base_url@ + "/telegram/webhook"@,
{
    let mut out = chars_of(public_base_url);
    push_str(&mut out, "/telegram/webhook");
    string_from_chars(out.as_slice())
}

/// Why an OAuth callback is refused.
#[derive(Debug, Clone, Copy, PartialEq, Eq, Structural)]
pub enum OAuthRefusal {
    /// Missing parameters or an unknown state.
    BadRequest,
    /// The user is not on the allowlist.
    Forbidden,
    /// Google's token endpoint failed or sent no refresh token.
    BadGateway,
    /// Storage failed.
    Internal,
}

impl OAuthRefusal {
    /// The HTTP status answered.
    pub fn status_code(self) -> (res: u16)
        ensures
            res == match self {
                OAuthRefusal::BadRequest => 400u16,
                OAuthRefusal::Forbidden => 403u16,
                OAuthRefusal::BadGateway => 502u16,
                OAuthRefusal::Internal => 500u16,
            },
    {
        match self {
            OAuthRefusal::BadRequest => 400,
            OAuthRefusal::Forbidden => 403,
            OAuthRefusal::BadGateway => 502,
            OAuthRefusal::Internal => 500,
        }
    }
}

/// An OAuth request parameter that is present but empty is refused.
pub fn oauth_param_missing(value: &str) -> (res: bool)
    ensures
        res == (value@.len() == 0),
{
    chars_of(value).len() == 0
}

/// The body of the page shown after connecting Google Drive.
pub open spec fn success_body_text(folder_ok: bool) -> Seq<char> {
    if folder_ok {
        "<p>Google Drive is connected. Uploads will go to the <strong>Afrasyab</strong> folder in your Drive. Return to Telegram and send links or files.</p><p>Use <code>/folder</code> to rename that folder or create a different one.</p>"@
    } else {
        "<p>Google Drive is connected, but we could not create your upload folder automatically. Return to Telegram and run <code>/folder</code> to set one up.</p>"@
    }
}

/// The page shown after connecting Google Drive.
pub open spec fn success_html_spec(folder_ok: bool) -> Seq<char> {
    "<!DOCTYPE html>\n<html lang=\"en\">\n<head>\n  <meta charset=\"utf-8\">\n  <title>Afrasyab \u{2014} Google connected</title>\n  <style>\n    body { font-family: system-ui, sans-serif; max-width: 32rem; margin: 4rem auto; line-height: 1.5; }\n    h1 { font-size: 1.25rem; }\n  </style>\n</head>\n<body>\n  <h1>Google Drive connected</h1>\n  "@
        + success_body_text(folder_ok) + "\n</body>\n</html>"@
}

/// The HTML page answered to a successful OAuth callback; `folder_ok` says whether the
/// default folder was created.
pub fn success_html(folder_ok: bool) -> (res: String)
    ensures
        res@ == success_html_spec(folder_ok),
{
    let mut out = chars_of(
        "<!DOCTYPE html>\n<html lang=\"en\">\n<head>\n  <meta charset=\"utf-8\">\n  <title>Afrasyab \u{2014} Google connected</title>\n  <style>\n    body { font-family: system-ui, sans-serif; max-width: 32rem; margin: 4rem auto; line-height: 1.5; }\n    h1 { font-size: 1.25rem; }\n  </style>\n</head>\n<body>\n  <h1>Google Drive connected</h1>\n  ",
    );
    if folder_ok {
        push_str(
            &mut out,
            "<p>Google Drive is connected. Uploads will go to the <strong>Afrasyab</strong> folder in your Drive. Return to Telegram and send links or files.</p><p>Use <code>/folder</code> to rename that folder or create a different one.</p>",
        );
    } else {
        push_str(
            &mut out,
            "<p>Google Drive is connected, but we could not create your upload folder automatically. Return to Telegram and run <code>/folder</code> to set one up.</p>",
        );
    }
    push_str(&mut out, "\n</body>\n</html>");
    string_from_chars(out.as_slice())
}

} // verus!
