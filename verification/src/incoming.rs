//! What the bot does with an incoming message or button press: which command or flow it
//! belongs to, which attachment becomes a job, what a link leads to, and the data that
//! the inline buttons carry.
use vstd::prelude::*;
use crate::classify::{classify_url, classify_url_spec, LinkKind};
use crate::commands::{
    after_first, before_first, parse_admin_command, parse_user_command, split_first,
    admin_command_spec, parse_user_command_spec, AdminCommand, UserCommand,
};
use crate::job::YtDlpFormat;
use crate::records::FolderPendingMode;
use crate::runner::{format_key, format_key_text, TELEGRAM_MAX_BYTES};
use crate::text::{
    chars_of, decimal, first_occurrence, has_prefix, push_chars, push_decimal, push_str,
    slice_to_vec, starts_with_chars, str_eq, string_from_chars,
};

verus! {

// ---------------------------------------------------------------------------
// Attachments
// ---------------------------------------------------------------------------

/// A Telegram file that a job can download.
#[derive(Debug, Clone)]
pub struct TelegramFileMeta {
    pub file_id: String,
    pub file_unique_id: String,
    pub file_name: Option<String>,
    pub file_size: Option<u64>,
}

/// A file attached to a message, as the Bot API describes it.
#[derive(Debug, Clone)]
pub struct FileRef {
    pub file_id: String,
    pub file_unique_id: String,
    pub file_name: Option<String>,
    pub size: u32,
}

/// The attachments of a message, by kind.
#[derive(Debug, Clone)]
pub struct MessageAttachments {
    pub document: Option<FileRef>,
    pub video: Option<FileRef>,
    pub audio: Option<FileRef>,
    pub voice: Option<FileRef>,
    /// The sizes of a photo, smallest first.
    pub photos: Option<Vec<FileRef>>,
}

/// The job file described by an attachment; `keep_name` says whether its name is kept.
pub open spec fn file_meta_of(f: FileRef, keep_name: bool, m: TelegramFileMeta) -> bool {
    &&& m.file_id@ == f.file_id@
    &&& m.file_unique_id@ == f.file_unique_id@
    &&& m.file_size == Some(f.size as u64)
    &&& if keep_name {
        match (m.file_name, f.file_name) {
            (Some(a), Some(b)) => a@ == b@,
            (None, None) => true,
            _ => false,
        }
    } else {
        m.file_name is None
    }
}

/// The file a message brings: its document, else its video, else its audio, else its
/// voice note (without a name), else the largest size of its photo (without a name).
pub open spec fn selected_file(a: MessageAttachments, res: Option<TelegramFileMeta>) -> bool {
    if a.document is Some {
        res matches Some(m) && file_meta_of(a.document->0, true, m)
    } else if a.video is Some {
        res matches Some(m) && file_meta_of(a.video->0, true, m)
    } else if a.audio is Some {
        res matches Some(m) && file_meta_of(a.audio->0, true, m)
    } else if a.voice is Some {
        res matches Some(m) && file_meta_of(a.voice->0, false, m)
    } else if a.photos is Some {
        let p = a.photos->0@;
        if p.len() == 0 {
            res is None
        } else {
            res matches Some(m) && file_meta_of(p.last(), false, m)
        }
    } else {
        res is None
    }
}

/// A message with any attachment yields a file to download, and the file is taken from
/// the first kind present in this order: document, video, audio, voice note, photo (its
/// last, largest size). Documents, videos and audio keep their file name; voice notes and
/// photos have none. A message without attachments (or with an empty photo list) yields
/// none.
pub proof fn lemma_attachment_selected(a: MessageAttachments, res: Option<TelegramFileMeta>)
    requires
        selected_file(a, res),
    ensures
        res is Some <==> (a.document is Some || a.video is Some || a.audio is Some
            || a.voice is Some || (a.photos is Some && a.photos->0@.len() > 0)),
        a.document matches Some(d) ==> (res matches Some(m) && m.file_id@ == d.file_id@
            && m.file_unique_id@ == d.file_unique_id@ && m.file_size == Some(d.size as u64)
            && crate::weburl::opt_view(m.file_name) == crate::weburl::opt_view(d.file_name)),
        a.document is None ==> (a.video matches Some(v) ==> (res matches Some(m) && m.file_id@
            == v.file_id@ && m.file_unique_id@ == v.file_unique_id@ && m.file_size == Some(
            v.size as u64,
        ) && crate::weburl::opt_view(m.file_name) == crate::weburl::opt_view(v.file_name))),
        a.document is None && a.video is None ==> (a.audio matches Some(x) ==> (res matches Some(
            m,
        ) && m.file_id@ == x.file_id@ && m.file_unique_id@ == x.file_unique_id@ && m.file_size
            == Some(x.size as u64) && crate::weburl::opt_view(m.file_name) == crate::weburl::opt_view(x.file_name))),
        a.document is None && a.video is None && a.audio is None ==> (a.voice matches Some(v)
            ==> (res matches Some(m) && m.file_id@ == v.file_id@ && m.file_unique_id@
            == v.file_unique_id@ && m.file_size == Some(v.size as u64) && m.file_name is None)),
        a.document is None && a.video is None && a.audio is None && a.voice is None ==> (
        (a.photos is Some && a.photos->0@.len() > 0) ==> (res matches Some(m) && m.file_id@
            == a.photos->0@.last().file_id@ && m.file_unique_id@
            == a.photos->0@.last().file_unique_id@ && m.file_size == Some(
            a.photos->0@.last().size as u64,
        ) && m.file_name is None)),
{
}

fn meta_from(f: &FileRef, keep_name: bool) -> (res: TelegramFileMeta)
    ensures
        file_meta_of(*f, keep_name, res),
{
    TelegramFileMeta {
        file_id: f.file_id.clone(),
        file_unique_id: f.file_unique_id.clone(),
        file_name: if keep_name {
            match &f.file_name {
                Some(n) => Some(n.clone()),
                None => None,
            }
        } else {
            None
        },
        file_size: Some(f.size as u64),
    }
}

/// Picks the attachment of a message that becomes a Telegram-file job.
pub fn select_telegram_file(a: &MessageAttachments) -> (res: Option<TelegramFileMeta>)
    ensures
        selected_file(*a, res),
{
    if let Some(d) = &a.document {
        return Some(meta_from(d, true));
    }
    if let Some(v) = &a.video {
        return Some(meta_from(v, true));
    }
    if let Some(x) = &a.audio {
        return Some(meta_from(x, true));
    }
    if let Some(v) = &a.voice {
        return Some(meta_from(v, false));
    }
    if let Some(ps) = &a.photos {
        if ps.len() == 0 {
            return None;
        }
        return Some(meta_from(&ps[ps.len() - 1], false));
    }
    None
}

/// A Telegram file whose announced size is above what bots may download.
pub open spec fn telegram_file_too_large_spec(size: Option<u64>) -> bool {
    match size {
        Some(s) => s > TELEGRAM_MAX_BYTES,
        None => false,
    }
}


/// Telegram files are refused exactly when they announce more than 20 MiB
/// (20 971 520 bytes); a file of unknown size is tried.
pub proof fn lemma_telegram_size_cap(size: Option<u64>)
    ensures
        telegram_file_too_large_spec(size) <==> (size matches Some(s) && s > 20971520),
{
}

/// Whether a Telegram file is too large for the Bot API (over 20 MiB); files of unknown
/// size are tried.
pub fn telegram_file_too_large(size: Option<u64>) -> (res: bool)
    ensures
        res == telegram_file_too_large_spec(size),
{
    match size {
        Some(s) => s > TELEGRAM_MAX_BYTES,
        None => false,
    }
}

/// The reply to a Telegram file that is too large.
pub fn telegram_file_too_large_message() -> (res: &'static str)
    ensures
        res@ == "File too large for the Telegram bot API (max 20 MB). Send a direct link instead."@,
{
    "File too large for the Telegram bot API (max 20 MB). Send a direct link instead."
}

// ---------------------------------------------------------------------------
// Routing a message
// ---------------------------------------------------------------------------

/// Where a private message goes.
#[derive(Debug, Clone, PartialEq, Eq)]
pub enum MessageRoute {
    /// Not handled: not a private chat, or no sender.
    Ignore,
    /// An admin command from the super-admin.
    Admin(AdminCommand),
    /// A malformed admin command from the super-admin; the usage line to send.
    AdminUsage(&'static str),
    /// A user command.
    User(UserCommand),
    /// Anything else: a folder name, links or files, for allowed users.
    Content,
}

/// The route of a message, in the order the bot checks: chat kind and sender, admin
/// commands (super-admin only), admin usage hints, user commands, content.
pub open spec fn route_spec(
    is_private: bool,
    from: Option<i64>,
    text: Seq<char>,
    bot_name: Seq<char>,
    super_admin: i64,
) -> MessageRoute {
    if !is_private || from is None {
        MessageRoute::Ignore
    } else if from == Some(super_admin) && admin_command_spec(text, bot_name) is Ok {
        MessageRoute::Admin(admin_command_spec(text, bot_name)->Ok_0)
    } else if from == Some(super_admin) && has_prefix(text, "/adduser"@) {
        MessageRoute::AdminUsage("Usage: /adduser <telegram_id>")
    } else if from == Some(super_admin) && has_prefix(text, "/removeuser"@) {
        MessageRoute::AdminUsage("Usage: /removeuser <telegram_id>")
    } else if parse_user_command_spec(text, bot_name) is Some {
        MessageRoute::User(parse_user_command_spec(text, bot_name)->0)
    } else {
        MessageRoute::Content
    }
}

/// Decides which handler a message goes to.
pub fn route_message(
    is_private: bool,
    from: Option<i64>,
    text: &str,
    bot_name: &str,
    super_admin: i64,
) -> (res: MessageRoute)
    ensures
        res == route_spec(is_private, from, text@, bot_name@, super_admin),
{
    if !is_private {
        return MessageRoute::Ignore;
    }
    let sender = match from {
        Some(f) => f,
        None => return MessageRoute::Ignore,
    };
    if sender == super_admin {
        if let Some(cmd) = parse_admin_command(text, bot_name) {
            return MessageRoute::Admin(cmd);
        }
        let t = chars_of(text);
        let add = chars_of("/adduser");
        if starts_with_chars(t.as_slice(), add.as_slice()) {
            return MessageRoute::AdminUsage("Usage: /adduser <telegram_id>");
        }
        let remove = chars_of("/removeuser");
        if starts_with_chars(t.as_slice(), remove.as_slice()) {
            return MessageRoute::AdminUsage("Usage: /removeuser <telegram_id>");
        }
    }
    match parse_user_command(text, bot_name) {
        Some(cmd) => MessageRoute::User(cmd),
        None => MessageRoute::Content,
    }
}

/// Only private chats with a known sender are handled, and only the super-admin reaches
/// the admin commands and their usage hints.
pub proof fn lemma_admin_routes_only_for_super_admin(
    is_private: bool,
    from: Option<i64>,
    text: Seq<char>,
    bot_name: Seq<char>,
    super_admin: i64,
)
    ensures
        (!is_private || from is None) ==> route_spec(is_private, from, text, bot_name, super_admin)
            == MessageRoute::Ignore,
        (route_spec(is_private, from, text, bot_name, super_admin) is Admin || route_spec(
            is_private,
            from,
            text,
            bot_name,
            super_admin,
        ) is AdminUsage) ==> is_private && from == Some(super_admin),
{
}

/// In a private chat, a user other than the super-admin who sends a user command on its
/// own reaches that command: `/start`, `/connect`, `/folder`, `/status`, `/help`.
pub proof fn lemma_user_commands_route(sender: i64, bot_name: Seq<char>, super_admin: i64)
    requires
        sender != super_admin,
    ensures
        route_spec(true, Some(sender), "/start"@, bot_name, super_admin) == MessageRoute::User(
            UserCommand::Start,
        ),
        route_spec(true, Some(sender), "/connect"@, bot_name, super_admin) == MessageRoute::User(
            UserCommand::Connect,
        ),
        route_spec(true, Some(sender), "/folder"@, bot_name, super_admin) == MessageRoute::User(
            UserCommand::Folder,
        ),
        route_spec(true, Some(sender), "/status"@, bot_name, super_admin) == MessageRoute::User(
            UserCommand::Status,
        ),
        route_spec(true, Some(sender), "/help"@, bot_name, super_admin) == MessageRoute::User(
            UserCommand::Help,
        ),
{
    crate::commands::lemma_user_commands_recognised(bot_name);
}

/// Whether the playlist prompt was answered with yes; any other answer cancels it.
pub fn playlist_accepted(answer: &str) -> (res: bool)
    ensures
        res == (answer@ == "yes"@),
{
    str_eq(answer, "yes")
}

/// What happens to a user command, by whether the sender is on the allowlist.
#[derive(Debug, Clone, Copy, PartialEq, Eq, Structural)]
pub enum CommandAccess {
    /// `/help` is answered for everyone.
    ShowHelp,
    /// `/start` from someone not on the allowlist gets the access-denied reply.
    Deny,
    /// Other commands from someone not on the allowlist get no answer.
    Ignore,
    /// The command runs.
    Run,
}

/// Decides whether a user command runs: help for everyone, everything else only for
/// allowlisted users, and a denial only to `/start`.
pub fn user_command_access(cmd: UserCommand, allowed: bool) -> (res: CommandAccess)
    ensures
        res == if cmd == UserCommand::Help {
            CommandAccess::ShowHelp
        } else if !allowed {
            if cmd == UserCommand::Start {
                CommandAccess::Deny
            } else {
                CommandAccess::Ignore
            }
        } else {
            CommandAccess::Run
        },
        res == CommandAccess::Run ==> allowed,
{
    match cmd {
        UserCommand::Help => CommandAccess::ShowHelp,
        UserCommand::Start => if allowed {
            CommandAccess::Run
        } else {
            CommandAccess::Deny
        },
        _ => if allowed {
            CommandAccess::Run
        } else {
            CommandAccess::Ignore
        },
    }
}

// ---------------------------------------------------------------------------
// Links
// ---------------------------------------------------------------------------

/// What follows the playlist probe of a yt-dlp link.
#[derive(Debug, Clone)]
pub enum PlaylistProbeStep {
    /// A single item: ask for a format.
    AskFormat,
    /// Too many items: send this reply and skip the link.
    Refuse(String),
    /// Fetch the entries' URLs.
    FetchEntries { count: usize },
}

/// The refusal of a playlist with more items than allowed.
pub open spec fn playlist_too_long_text(count: usize, max_items: usize) -> Seq<char> {
    "Playlist has "@ + decimal(count as nat) + " items (max "@ + decimal(max_items as nat)
        + ")."@
}

/// Decides what follows the probe: `count` is the number of entries of a multi-entry
/// playlist, `None` for a single item.
pub fn after_playlist_probe(count: Option<usize>, max_items: usize) -> (res: PlaylistProbeStep)
    ensures
        match count {
            None => res is AskFormat,
            Some(c) => if c > max_items {
                res matches PlaylistProbeStep::Refuse(m) && m@ == playlist_too_long_text(
                    c,
                    max_items,
                )
            } else {
                res matches PlaylistProbeStep::FetchEntries { count } && count == c
            },
        },
{
    match count {
        None => PlaylistProbeStep::AskFormat,
        Some(c) => if c > max_items {
            let mut out = chars_of("Playlist has ");
            push_decimal(&mut out, c as u64);
            push_str(&mut out, " items (max ");
            push_decimal(&mut out, max_items as u64);
            push_str(&mut out, ").");
            PlaylistProbeStep::Refuse(string_from_chars(out.as_slice()))
        } else {
            PlaylistProbeStep::FetchEntries { count: c }
        },
    }
}

/// The question asked before queueing a playlist.
pub open spec fn playlist_question_text(count: usize) -> Seq<char> {
    "Download all "@ + decimal(count as nat) + " items from this playlist?"@
}

/// Decides what follows fetching a playlist's entries: with more than one entry URL the
/// user confirms the playlist (the question is returned), else a format is asked for.
pub fn after_playlist_entries(count: usize, entry_urls: usize) -> (res: Option<String>)
    ensures
        match res {
            Some(q) => entry_urls > 1 && q@ == playlist_question_text(count),
            None => entry_urls <= 1,
        },
{
    if entry_urls > 1 {
        let mut out = chars_of("Download all ");
        push_decimal(&mut out, count as u64);
        push_str(&mut out, " items from this playlist?");
        Some(string_from_chars(out.as_slice()))
    } else {
        None
    }
}

// ---------------------------------------------------------------------------
// The links and file of one message, step by step
// ---------------------------------------------------------------------------

/// Where the handling of a message's links and file stands.
#[derive(Debug, Clone, Copy, PartialEq, Eq, Structural)]
pub enum IncomingStage {
    /// Looking for the next link from the current position.
    Links,
    /// The current link's playlist size is being asked.
    Probing,
    /// The current link's entries are being fetched; the playlist has this many.
    Fetching(usize),
    /// Links and file are done.
    Finished,
}

/// What the outside work of the last action reported.
#[derive(Debug, Clone, Copy, PartialEq, Eq, Structural)]
pub enum IncomingEvent {
    /// The action was carried out; nothing to report.
    Done,
    /// The playlist size of the link being probed (`None` for a single item).
    PlaylistSize(Option<usize>),
    /// The number of entry URLs fetched for the playlist.
    EntryUrls(usize),
}

/// The next piece of outside work for a message.
#[derive(Debug, Clone)]
pub enum IncomingAction {
    /// Queue a direct download of the link.
    EnqueueDirect { url: String },
    /// Ask yt-dlp for the link's playlist size.
    ProbePlaylist { url: String },
    /// Send this reply about the current link.
    Reply { text: String },
    /// Fetch the entry URLs of the link's playlist.
    FetchEntries { url: String },
    /// Keep the fetched playlist and ask the user to confirm it with this question.
    ConfirmPlaylist { url: String, question: String },
    /// Keep the link and ask the user for a format.
    AskFormat { url: String },
    /// Refuse the attached file with this reply.
    RefuseFile { text: String },
    /// Queue a download of the attached file.
    EnqueueFile { file: TelegramFileMeta },
    /// Nothing is left to do.
    Finish,
}

/// The plain content of an [`IncomingAction`].
pub enum IncomingActionView {
    EnqueueDirect(Seq<char>),
    ProbePlaylist(Seq<char>),
    Reply(Seq<char>),
    FetchEntries(Seq<char>),
    ConfirmPlaylist(Seq<char>, Seq<char>),
    AskFormat(Seq<char>),
    RefuseFile(Seq<char>),
    EnqueueFile(TelegramFileMeta),
    Finish,
}

impl View for IncomingAction {
    type V = IncomingActionView;

    open spec fn view(&self) -> IncomingActionView {
        match self {
            IncomingAction::EnqueueDirect { url } => IncomingActionView::EnqueueDirect(url@),
            IncomingAction::ProbePlaylist { url } => IncomingActionView::ProbePlaylist(url@),
            IncomingAction::Reply { text } => IncomingActionView::Reply(text@),
            IncomingAction::FetchEntries { url } => IncomingActionView::FetchEntries(url@),
            IncomingAction::ConfirmPlaylist { url, question } => IncomingActionView::ConfirmPlaylist(
                url@,
                question@,
            ),
            IncomingAction::AskFormat { url } => IncomingActionView::AskFormat(url@),
            IncomingAction::RefuseFile { text } => IncomingActionView::RefuseFile(text@),
            IncomingAction::EnqueueFile { file } => IncomingActionView::EnqueueFile(*file),
            IncomingAction::Finish => IncomingActionView::Finish,
        }
    }
}

/// The texts of the links of a message.
pub open spec fn link_texts(v: Seq<String>) -> Seq<Seq<char>> {
    v.map_values(|s: String| s@)
}

/// The first link at or after `i` that is an http(s) URL (the number of links when there
/// is none); the links before it are skipped.
pub open spec fn next_link(links: Seq<Seq<char>>, i: int) -> int
    decreases links.len() - i,
{
    if i >= links.len() {
        links.len() as int
    } else if classify_url_spec(links[i]) is Some {
        i
    } else {
        next_link(links, i + 1)
    }
}

/// The kind of the link at `j`.
pub open spec fn link_kind(links: Seq<Seq<char>>, j: int) -> LinkKind {
    match classify_url_spec(links[j]) {
        Some((k, _)) => k,
        None => LinkKind::DirectHttp,
    }
}

/// The step for a message's attached file, once its links are done.
pub open spec fn file_action(file: Option<TelegramFileMeta>) -> IncomingActionView {
    match file {
        None => IncomingActionView::Finish,
        Some(f) => if telegram_file_too_large_spec(f.file_size) {
            IncomingActionView::RefuseFile(
                "File too large for the Telegram bot API (max 20 MB). Send a direct link instead."@,
            )
        } else {
            IncomingActionView::EnqueueFile(f)
        },
    }
}

/// The position of the next http(s) link at or after `from`, with its kind; the number
/// of links and no kind when none is left.
fn find_next_link(links: &Vec<String>, from: usize) -> (res: (usize, Option<LinkKind>))
    requires
        from <= links@.len(),
    ensures
        res.0 == next_link(link_texts(links@), from as int),
        from <= res.0 <= links@.len(),
        match res.1 {
            Some(k) => res.0 < links@.len() && link_kind(link_texts(links@), res.0 as int) == k,
            None => res.0 == links@.len(),
        },
{
    let ghost texts = link_texts(links@);
    let n = links.len();
    let mut i = from;
    while i < n
        invariant
            n == links@.len(),
            from <= i <= n,
            texts == link_texts(links@),
            next_link(texts, from as int) == next_link(texts, i as int),
        decreases n - i,
    {
        assert(texts[i as int] == links@[i as int]@);
        match classify_url(links[i].as_str()) {
            Some((kind, _)) => {
                return (i, Some(kind));
            },
            None => {},
        }
        i = i + 1;
    }
    (n, None)
}

/// Handles the links of a message in order (skipping those that are no http(s) URL),
/// then its attached file.
pub struct IncomingFlow {
    links: Vec<String>,
    index: usize,
    stage: IncomingStage,
    file: Option<TelegramFileMeta>,
    max_items: usize,
}

impl IncomingFlow {
    /// The links, as text.
    pub closed spec fn links_spec(&self) -> Seq<Seq<char>> {
        link_texts(self.links@)
    }

    /// The position of the current link.
    pub closed spec fn index_spec(&self) -> int {
        self.index as int
    }

    /// The stage.
    pub closed spec fn stage_spec(&self) -> IncomingStage {
        self.stage
    }

    /// The attached file, if any.
    pub closed spec fn file_spec(&self) -> Option<TelegramFileMeta> {
        self.file
    }

    /// The playlist size limit.
    pub closed spec fn max_items_spec(&self) -> usize {
        self.max_items
    }

    /// The position never passes the end; while a link is probed or fetched it is a
    /// yt-dlp link.
    pub closed spec fn well_formed(&self) -> bool {
        &&& self.index <= self.links@.len()
        &&& (self.stage is Probing || self.stage is Fetching) ==> self.index < self.links@.len()
    }

    /// How much work is left at most: three steps per remaining link, fewer once the
    /// current link is being probed or fetched, none when finished.
    pub closed spec fn work_left(&self) -> nat {
        match self.stage {
            IncomingStage::Finished => 0,
            IncomingStage::Links => (3 * (self.links@.len() - self.index) + 2) as nat,
            IncomingStage::Probing => (3 * (self.links@.len() - self.index) + 1) as nat,
            IncomingStage::Fetching(_) => (3 * (self.links@.len() - self.index)) as nat,
        }
    }

    /// Whether `event` answers the last action.
    pub open spec fn accepts(&self, event: IncomingEvent) -> bool {
        match self.stage_spec() {
            IncomingStage::Probing => event is PlaylistSize,
            IncomingStage::Fetching(_) => event is EntryUrls,
            _ => event is Done,
        }
    }

    /// The handling of a message with these links and this file, for a playlist limit.
    pub fn new(links: Vec<String>, file: Option<TelegramFileMeta>, max_items: usize) -> (res: Self)
        ensures
            res.well_formed(),
            res.links_spec() == link_texts(links@),
            res.index_spec() == 0,
            res.stage_spec() == IncomingStage::Links,
            res.file_spec() == file,
            res.max_items_spec() == max_items,
    {
        IncomingFlow { links, index: 0, stage: IncomingStage::Links, file, max_items }
    }

    /// Moves to the next link that is an http(s) URL and starts on it, or to the file
    /// when no link is left.
    fn scan(&mut self) -> (res: IncomingAction)
        requires
            old(self).well_formed(),
            old(self).stage_spec() == IncomingStage::Links,
        ensures
            final(self).well_formed(),
            final(self).links_spec() == old(self).links_spec(),
            final(self).file_spec() == old(self).file_spec(),
            final(self).max_items_spec() == old(self).max_items_spec(),
            old(self).stage_spec() != IncomingStage::Finished ==> final(self).work_left() < old(
                self,
            ).work_left(),
            res@ is Finish ==> final(self).stage_spec() == IncomingStage::Finished,
            ({
                let links = old(self).links_spec();
                let j = next_link(links, old(self).index_spec());
                if j < links.len() {
                    match link_kind(links, j) {
                        LinkKind::DirectHttp => res@ == IncomingActionView::EnqueueDirect(links[j])
                            && final(self).index_spec() == j + 1 && final(self).stage_spec()
                            == IncomingStage::Links,
                        LinkKind::YtDlp => res@ == IncomingActionView::ProbePlaylist(links[j])
                            && final(self).index_spec() == j && final(self).stage_spec()
                            == IncomingStage::Probing,
                    }
                } else {
                    res@ == file_action(old(self).file_spec()) && final(self).index_spec()
                        == links.len() && final(self).stage_spec() == IncomingStage::Finished
                }
            }),
    {
        let (j, kind) = find_next_link(&self.links, self.index);
        let n = self.links.len();
        match kind {
            Some(LinkKind::DirectHttp) => {
                let url = self.links[j].clone();
                self.index = j + 1;
                IncomingAction::EnqueueDirect { url }
            },
            Some(LinkKind::YtDlp) => {
                let url = self.links[j].clone();
                self.index = j;
                self.stage = IncomingStage::Probing;
                IncomingAction::ProbePlaylist { url }
            },
            None => {
                self.index = n;
                self.stage = IncomingStage::Finished;
                match &self.file {
                    None => IncomingAction::Finish,
                    Some(f) => if telegram_file_too_large(f.file_size) {
                        IncomingAction::RefuseFile {
                            text: telegram_file_too_large_message().to_owned(),
                        }
                    } else {
                        IncomingAction::EnqueueFile { file: f.clone_meta() }
                    },
                }
            },
        }
    }

    /// The first piece of work for the message.
    pub fn start(&mut self) -> (res: IncomingAction)
        requires
            old(self).well_formed(),
            old(self).stage_spec() == IncomingStage::Links,
        ensures
            final(self).well_formed(),
            final(self).links_spec() == old(self).links_spec(),
            final(self).file_spec() == old(self).file_spec(),
            final(self).max_items_spec() == old(self).max_items_spec(),
            old(self).stage_spec() != IncomingStage::Finished ==> final(self).work_left() < old(
                self,
            ).work_left(),
            res@ is Finish ==> final(self).stage_spec() == IncomingStage::Finished,
            ({
                let links = old(self).links_spec();
                let j = next_link(links, old(self).index_spec());
                if j < links.len() {
                    match link_kind(links, j) {
                        LinkKind::DirectHttp => res@ == IncomingActionView::EnqueueDirect(links[j])
                            && final(self).index_spec() == j + 1,
                        LinkKind::YtDlp => res@ == IncomingActionView::ProbePlaylist(links[j])
                            && final(self).index_spec() == j && final(self).stage_spec()
                            == IncomingStage::Probing,
                    }
                } else {
                    res@ == file_action(old(self).file_spec()) && final(self).stage_spec()
                        == IncomingStage::Finished
                }
            }),
    {
        self.scan()
    }

    /// The next piece of work, given what the last one reported.
    pub fn next(&mut self, event: IncomingEvent) -> (res: IncomingAction)
        requires
            old(self).well_formed(),
            old(self).accepts(event),
        ensures
            final(self).well_formed(),
            final(self).links_spec() == old(self).links_spec(),
            final(self).file_spec() == old(self).file_spec(),
            final(self).max_items_spec() == old(self).max_items_spec(),
            old(self).stage_spec() != IncomingStage::Finished ==> final(self).work_left() < old(
                self,
            ).work_left(),
            res@ is Finish ==> final(self).stage_spec() == IncomingStage::Finished,
            ({
                let links = old(self).links_spec();
                let i = old(self).index_spec();
                match old(self).stage_spec() {
                    IncomingStage::Probing => match event {
                        IncomingEvent::PlaylistSize(None) => res@ == IncomingActionView::AskFormat(
                            links[i],
                        ) && final(self).index_spec() == i + 1 && final(self).stage_spec()
                            == IncomingStage::Links,
                        IncomingEvent::PlaylistSize(Some(c)) => if c > old(self).max_items_spec() {
                            res@ == IncomingActionView::Reply(
                                playlist_too_long_text(c, old(self).max_items_spec()),
                            ) && final(self).index_spec() == i + 1 && final(self).stage_spec()
                                == IncomingStage::Links
                        } else {
                            res@ == IncomingActionView::FetchEntries(links[i])
                                && final(self).index_spec() == i && final(self).stage_spec()
                                == IncomingStage::Fetching(c)
                        },
                        _ => false,
                    },
                    IncomingStage::Fetching(count) => match event {
                        IncomingEvent::EntryUrls(n) => final(self).index_spec() == i + 1
                            && final(self).stage_spec() == IncomingStage::Links && if n > 1 {
                            res@ == IncomingActionView::ConfirmPlaylist(
                                links[i],
                                playlist_question_text(count),
                            )
                        } else {
                            res@ == IncomingActionView::AskFormat(links[i])
                        },
                        _ => false,
                    },
                    IncomingStage::Links => {
                        let j = next_link(links, i);
                        if j < links.len() {
                            match link_kind(links, j) {
                                LinkKind::DirectHttp => res@ == IncomingActionView::EnqueueDirect(
                                    links[j],
                                ) && final(self).index_spec() == j + 1,
                                LinkKind::YtDlp => res@ == IncomingActionView::ProbePlaylist(
                                    links[j],
                                ) && final(self).index_spec() == j && final(self).stage_spec()
                                    == IncomingStage::Probing,
                            }
                        } else {
                            res@ == file_action(old(self).file_spec()) && final(self).stage_spec()
                                == IncomingStage::Finished
                        }
                    },
                    IncomingStage::Finished => res@ == IncomingActionView::Finish
                        && final(self).stage_spec() == IncomingStage::Finished,
                }
            }),
    {
        match self.stage {
            IncomingStage::Probing => {
                let n = self.links.len();
                let url = self.links[self.index].clone();
                match event {
                    IncomingEvent::PlaylistSize(size) => match after_playlist_probe(
                        size,
                        self.max_items,
                    ) {
                        PlaylistProbeStep::AskFormat => {
                            self.index = self.index + 1;
                            self.stage = IncomingStage::Links;
                            IncomingAction::AskFormat { url }
                        },
                        PlaylistProbeStep::Refuse(text) => {
                            self.index = self.index + 1;
                            self.stage = IncomingStage::Links;
                            IncomingAction::Reply { text }
                        },
                        PlaylistProbeStep::FetchEntries { count } => {
                            self.stage = IncomingStage::Fetching(count);
                            IncomingAction::FetchEntries { url }
                        },
                    },
                    _ => IncomingAction::Finish,
                }
            },
            IncomingStage::Fetching(count) => {
                let n = self.links.len();
                let url = self.links[self.index].clone();
                match event {
                    IncomingEvent::EntryUrls(n) => {
                        self.index = self.index + 1;
                        self.stage = IncomingStage::Links;
                        match after_playlist_entries(count, n) {
                            Some(question) => IncomingAction::ConfirmPlaylist { url, question },
                            None => IncomingAction::AskFormat { url },
                        }
                    },
                    _ => IncomingAction::Finish,
                }
            },
            IncomingStage::Links => self.scan(),
            IncomingStage::Finished => IncomingAction::Finish,
        }
    }
}

impl TelegramFileMeta {
    /// A copy of the file description.
    pub fn clone_meta(&self) -> (res: TelegramFileMeta)
        ensures
            res == *self,
    {
        TelegramFileMeta {
            file_id: self.file_id.clone(),
            file_unique_id: self.file_unique_id.clone(),
            file_name: match &self.file_name {
                Some(n) => Some(n.clone()),
                None => None,
            },
            file_size: self.file_size,
        }
    }
}

// ---------------------------------------------------------------------------
// Button data
// ---------------------------------------------------------------------------

/// What a button press asks for.
#[derive(Debug, Clone, PartialEq, Eq)]
pub enum CallbackRoute {
    /// A format button: the format key and the pending link's id.
    Format { key: String, pending_id: String },
    /// A playlist button: the answer and the pending playlist's id.
    Playlist { answer: String, pending_id: String },
    /// A folder action button.
    FolderMode(FolderPendingMode),
    /// Anything else: only acknowledged.
    Ignore,
}

/// The plain content of a [`CallbackRoute`].
pub enum CallbackRouteView {
    Format { key: Seq<char>, pending_id: Seq<char> },
    Playlist { answer: Seq<char>, pending_id: Seq<char> },
    FolderMode(FolderPendingMode),
    Ignore,
}

impl View for CallbackRoute {
    type V = CallbackRouteView;

    open spec fn view(&self) -> CallbackRouteView {
        match self {
            CallbackRoute::Format { key, pending_id } => CallbackRouteView::Format {
                key: key@,
                pending_id: pending_id@,
            },
            CallbackRoute::Playlist { answer, pending_id } => CallbackRouteView::Playlist {
                answer: answer@,
                pending_id: pending_id@,
            },
            CallbackRoute::FolderMode(m) => CallbackRouteView::FolderMode(*m),
            CallbackRoute::Ignore => CallbackRouteView::Ignore,
        }
    }
}

/// The route of button data: `fmt:<key>:<id>[:...]`, `pl:<answer>:<id>`,
/// `folder:rename`, `folder:new`.
pub open spec fn callback_route_spec(data: Seq<char>) -> CallbackRouteView {
    if has_prefix(data, "fmt:"@) {
        let rest = data.skip(4);
        CallbackRouteView::Format {
            key: before_first(rest, ':'),
            pending_id: match after_first(rest, ':') {
                Some(t) => before_first(t, ':'),
                None => Seq::empty(),
            },
        }
    } else if has_prefix(data, "pl:"@) {
        let rest = data.skip(3);
        CallbackRouteView::Playlist {
            answer: before_first(rest, ':'),
            pending_id: match after_first(rest, ':') {
                Some(t) => t,
                None => Seq::empty(),
            },
        }
    } else if data == "folder:rename"@ {
        CallbackRouteView::FolderMode(FolderPendingMode::Rename)
    } else if data == "folder:new"@ {
        CallbackRouteView::FolderMode(FolderPendingMode::CreateNew)
    } else {
        CallbackRouteView::Ignore
    }
}

/// Decides what a button press asks for from its data.
pub fn route_callback(data: &str) -> (res: CallbackRoute)
    ensures
        res@ == callback_route_spec(data@),
{
    proof {
        reveal_strlit("fmt:");
        reveal_strlit("pl:");
    }
    let d = chars_of(data);
    let fmt = chars_of("fmt:");
    let pl = chars_of("pl:");
    if starts_with_chars(d.as_slice(), fmt.as_slice()) {
        let rest = slice_to_vec(d.as_slice(), 4, d.len());
        assert(rest@ =~= data@.skip(4));
        let (key, after) = split_first(rest.as_slice(), ':');
        let pending_id = match after {
            Some(t) => {
                let (id, _) = split_first(t.as_slice(), ':');
                id
            },
            None => Vec::new(),
        };
        let ghost expected = callback_route_spec(data@);
        assert(pending_id@ =~= expected->Format_pending_id);
        return CallbackRoute::Format {
            key: string_from_chars(key.as_slice()),
            pending_id: string_from_chars(pending_id.as_slice()),
        };
    }
    if starts_with_chars(d.as_slice(), pl.as_slice()) {
        let rest = slice_to_vec(d.as_slice(), 3, d.len());
        assert(rest@ =~= data@.skip(3));
        let (answer, after) = split_first(rest.as_slice(), ':');
        let pending_id = match after {
            Some(t) => t,
            None => Vec::new(),
        };
        let ghost expected = callback_route_spec(data@);
        assert(pending_id@ =~= expected->Playlist_pending_id);
        return CallbackRoute::Playlist {
            answer: string_from_chars(answer.as_slice()),
            pending_id: string_from_chars(pending_id.as_slice()),
        };
    }
    if str_eq(data, "folder:rename") {
        return CallbackRoute::FolderMode(FolderPendingMode::Rename);
    }
    if str_eq(data, "folder:new") {
        return CallbackRoute::FolderMode(FolderPendingMode::CreateNew);
    }
    CallbackRoute::Ignore
}

/// The format a format button's key names; other keys name none.
pub open spec fn callback_format_spec(key: Seq<char>) -> Option<YtDlpFormat> {
    if key == "video"@ {
        Some(YtDlpFormat::Video)
    } else if key == "audio"@ {
        Some(YtDlpFormat::Audio)
    } else if key == "best"@ {
        Some(YtDlpFormat::Best)
    } else {
        None
    }
}

/// The format a format button's key names.
pub fn callback_format(key: &str) -> (res: Option<YtDlpFormat>)
    ensures
        res == callback_format_spec(key@),
{
    if str_eq(key, "video") {
        Some(YtDlpFormat::Video)
    } else if str_eq(key, "audio") {
        Some(YtDlpFormat::Audio)
    } else if str_eq(key, "best") {
        Some(YtDlpFormat::Best)
    } else {
        None
    }
}

/// The data of a format button.
pub open spec fn format_button_data(f: YtDlpFormat, pending_id: Seq<char>) -> Seq<char> {
    "fmt:"@ + format_key_text(f) + seq![':'] + pending_id
}

/// The data of a playlist button.
pub open spec fn playlist_button_data(yes: bool, pending_id: Seq<char>) -> Seq<char> {
    "pl:"@ + (if yes {
        "yes"@
    } else {
        "no"@
    }) + seq![':'] + pending_id
}

/// The data carried by the format button for `f`.
pub fn format_callback_data(f: YtDlpFormat, pending_id: &str) -> (res: String)
    ensures
        res@ == format_button_data(f, pending_id@),
{
    let mut out = chars_of("fmt:");
    push_str(&mut out, format_key(f));
    out.push(':');
    push_str(&mut out, pending_id);
    assert(out@ =~= format_button_data(f, pending_id@));
    string_from_chars(out.as_slice())
}

/// The data carried by the playlist confirmation buttons.
pub fn playlist_callback_data(yes: bool, pending_id: &str) -> (res: String)
    ensures
        res@ == playlist_button_data(yes, pending_id@),
{
    let mut out = chars_of("pl:");
    if yes {
        push_str(&mut out, "yes");
    } else {
        push_str(&mut out, "no");
    }
    out.push(':');
    push_str(&mut out, pending_id);
    assert(out@ =~= playlist_button_data(yes, pending_id@));
    string_from_chars(out.as_slice())
}

/// The data of the folder action buttons.
pub fn folder_callback_data(mode: FolderPendingMode) -> (res: &'static str)
    ensures
        res@ == match mode {
            FolderPendingMode::Rename => "folder:rename"@,
            FolderPendingMode::CreateNew => "folder:new"@,
        },
{
    match mode {
        FolderPendingMode::Rename => "folder:rename",
        FolderPendingMode::CreateNew => "folder:new",
    }
}

/// The first `c` in `p + [c] + r` is right after `p` when `p` has none.
pub proof fn lemma_first_char_after(p: Seq<char>, c: char, r: Seq<char>)
    requires
        !p.contains(c),
    ensures
        first_occurrence(p + seq![c] + r, seq![c]) == Some(p.len()),
    decreases p.len(),
{
    let s = p + seq![c] + r;
    if p.len() == 0 {
        assert(s.subrange(0, 1) =~= seq![c]);
    } else {
        assert(s[0] == p[0]);
        assert(!has_prefix(s, seq![c])) by {
            if has_prefix(s, seq![c]) {
                assert(s.subrange(0, 1)[0] == c);
                assert(p.contains(p[0]));
            }
        }
        assert(!p.drop_first().contains(c)) by {
            if p.drop_first().contains(c) {
                let i = choose|i: int| 0 <= i < p.drop_first().len() && p.drop_first()[i] == c;
                assert(p[i + 1] == c);
            }
        }
        lemma_first_char_after(p.drop_first(), c, r);
        assert(s.drop_first() =~= p.drop_first() + seq![c] + r);
    }
}

/// A sequence without `c` has no first `c`.
pub proof fn lemma_no_char(p: Seq<char>, c: char)
    requires
        !p.contains(c),
    ensures
        first_occurrence(p, seq![c]) is None,
    decreases p.len(),
{
    if p.len() > 0 {
        assert(!has_prefix(p, seq![c])) by {
            if has_prefix(p, seq![c]) {
                assert(p.subrange(0, 1)[0] == c);
                assert(p.contains(p[0]));
            }
        }
        assert(!p.drop_first().contains(c)) by {
            if p.drop_first().contains(c) {
                let i = choose|i: int| 0 <= i < p.drop_first().len() && p.drop_first()[i] == c;
                assert(p[i + 1] == c);
            }
        }
        lemma_no_char(p.drop_first(), c);
    }
}

/// Pressing a format button routes to that format and pending id, for any id without
/// `:` (the ids the bot issues are UUIDs).
pub proof fn lemma_format_button_round_trip(f: YtDlpFormat, pending_id: Seq<char>)
    requires
        !pending_id.contains(':'),
    ensures
        callback_route_spec(format_button_data(f, pending_id)) == (CallbackRouteView::Format {
            key: format_key_text(f),
            pending_id,
        }),
        callback_format_spec(format_key_text(f)) == Some(f),
{
    reveal_strlit("fmt:");
    reveal_strlit("pl:");
    reveal_strlit("video");
    reveal_strlit("audio");
    reveal_strlit("best");
    let key = format_key_text(f);
    let data = format_button_data(f, pending_id);
    assert(has_prefix(data, "fmt:"@)) by {
        assert(data.subrange(0, 4) =~= "fmt:"@);
    }
    let rest = data.skip(4);
    assert(rest =~= key + seq![':'] + pending_id);
    assert(!key.contains(':')) by {
        if key.contains(':') {
            let i = choose|i: int| 0 <= i < key.len() && key[i] == ':';
            assert(key[i] != ':');
        }
    }
    lemma_first_char_after(key, ':', pending_id);
    assert(rest.take(key.len() as int) =~= key);
    assert(rest.skip(key.len() as int + 1) =~= pending_id);
    lemma_no_char(pending_id, ':');
    assert("video"@ != "audio"@) by {
        assert("video"@[0] != "audio"@[0]);
    }
    assert("best"@ != "video"@ && "best"@ != "audio"@) by {
        assert("best"@.len() != "video"@.len());
    }
}

/// Pressing a playlist button routes to its answer and pending id, for any id.
pub proof fn lemma_playlist_button_round_trip(yes: bool, pending_id: Seq<char>)
    ensures
        callback_route_spec(playlist_button_data(yes, pending_id)) == (CallbackRouteView::Playlist {
            answer: if yes {
                "yes"@
            } else {
                "no"@
            },
            pending_id,
        }),
{
    reveal_strlit("fmt:");
    reveal_strlit("pl:");
    reveal_strlit("yes");
    reveal_strlit("no");
    let answer: Seq<char> = if yes {
        "yes"@
    } else {
        "no"@
    };
    let data = playlist_button_data(yes, pending_id);
    assert(!has_prefix(data, "fmt:"@)) by {
        if has_prefix(data, "fmt:"@) {
            assert(data.subrange(0, 4)[0] == 'f');
            assert(data[0] == 'p');
        }
    }
    assert(has_prefix(data, "pl:"@)) by {
        assert(data.subrange(0, 3) =~= "pl:"@);
    }
    let rest = data.skip(3);
    assert(rest =~= answer + seq![':'] + pending_id);
    assert(!answer.contains(':')) by {
        if answer.contains(':') {
            let i = choose|i: int| 0 <= i < answer.len() && answer[i] == ':';
            assert(answer[i] != ':');
        }
    }
    lemma_first_char_after(answer, ':', pending_id);
    assert(rest.take(answer.len() as int) =~= answer);
    assert(rest.skip(answer.len() as int + 1) =~= pending_id);
}

} // verus!
