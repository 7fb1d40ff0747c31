//! Bot commands: the `/command[@bot] args` grammar of Telegram bots, the user and admin
//! command sets, and the help text.
use vstd::prelude::*;
use crate::text::{
    ascii_lowercase, chars_eq, chars_of, first_occurrence, parse_i64, parse_i64_spec, push_str,
    slice_to_vec, string_from_chars, to_ascii_lowercase, trim, trim_chars, find_chars,
};

verus! {

// ---------------------------------------------------------------------------
// The command grammar
// ---------------------------------------------------------------------------

/// The part of `s` before the first `c` (all of `s` when there is none).
pub open spec fn before_first(s: Seq<char>, c: char) -> Seq<char> {
    match first_occurrence(s, seq![c]) {
        Some(k) => s.take(k as int),
        None => s,
    }
}

/// The part of `s` after the first `c`, when there is one.
pub open spec fn after_first(s: Seq<char>, c: char) -> Option<Seq<char>> {
    match first_occurrence(s, seq![c]) {
        Some(k) => Some(s.skip(k as int + 1)),
        None => None,
    }
}

/// The first word of a message: up to the first space.
pub open spec fn command_word(s: Seq<char>) -> Seq<char> {
    before_first(s, ' ')
}

/// The command of a message, without any `@bot` suffix.
pub open spec fn command_name(s: Seq<char>) -> Seq<char> {
    before_first(command_word(s), '@')
}

/// The bot a command is addressed to: between the first and any second `@` of the
/// first word.
pub open spec fn command_bot(s: Seq<char>) -> Option<Seq<char>> {
    match after_first(command_word(s), '@') {
        Some(t) => Some(before_first(t, '@')),
        None => None,
    }
}

/// The arguments of a command: everything after the first space.
pub open spec fn command_args(s: Seq<char>) -> Seq<char> {
    match after_first(s, ' ') {
        Some(t) => t,
        None => Seq::empty(),
    }
}

/// Equality without regard to ASCII case (`str::eq_ignore_ascii_case`).
pub open spec fn eq_ignoring_ascii_case(a: Seq<char>, b: Seq<char>) -> bool {
    ascii_lowercase(a) == ascii_lowercase(b)
}

/// A command addressed to another bot.
pub open spec fn addressed_elsewhere(s: Seq<char>, bot_name: Seq<char>) -> bool {
    match command_bot(s) {
        Some(u) => !eq_ignoring_ascii_case(u, bot_name),
        None => false,
    }
}

/// Why a text is not a command of a set.
#[derive(Debug, Clone)]
pub enum CommandParseError {
    /// The command names another bot.
    WrongBotName(String),
    /// No command of the set has this name.
    UnknownCommand(String),
    /// The arguments do not parse.
    IncorrectFormat,
}

/// The plain content of a [`CommandParseError`].
pub enum CommandFailure {
    WrongBotName(Seq<char>),
    UnknownCommand(Seq<char>),
    IncorrectFormat,
}

impl View for CommandParseError {
    type V = CommandFailure;

    open spec fn view(&self) -> CommandFailure {
        match self {
            CommandParseError::WrongBotName(n) => CommandFailure::WrongBotName(n@),
            CommandParseError::UnknownCommand(c) => CommandFailure::UnknownCommand(c@),
            CommandParseError::IncorrectFormat => CommandFailure::IncorrectFormat,
        }
    }
}

/// The pieces of a message, split the way the command grammar splits it.
struct Words {
    name: Vec<char>,
    bot: Option<Vec<char>>,
    args: Vec<char>,
}

/// The part of `s` before the first `c`, and the part after it when there is one.
pub(crate) fn split_first(s: &[char], c: char) -> (res: (Vec<char>, Option<Vec<char>>))
    ensures
        res.0@ == before_first(s@, c),
        match res.1 {
            Some(t) => after_first(s@, c) == Some(t@),
            None => after_first(s@, c) is None,
        },
{
    let pat: Vec<char> = vec![c];
    assert(pat@ =~= seq![c]);
    assert(pat@.len() == 1);
    let ps = pat.as_slice();
    let n = s.len();
    assert(ps@ == pat@);
    match find_chars(s, ps) {
        Some(k) => {
            assert(k + 1 <= n);
            let head = slice_to_vec(s, 0, k);
            let tail = slice_to_vec(s, k + 1, n);
            assert(head@ =~= s@.take(k as int));
            assert(tail@ =~= s@.skip(k + 1));
            (head, Some(tail))
        },
        None => {
            let all = slice_to_vec(s, 0, s.len());
            assert(all@ =~= s@);
            (all, None)
        },
    }
}

fn split_words(text: &str) -> (res: Words)
    ensures
        res.name@ == command_name(text@),
        res.args@ == command_args(text@),
        match res.bot {
            Some(b) => command_bot(text@) == Some(b@),
            None => command_bot(text@) is None,
        },
{
    let s = chars_of(text);
    let (word, rest) = split_first(s.as_slice(), ' ');
    let args = match rest {
        Some(t) => t,
        None => Vec::new(),
    };
    assert(args@ =~= command_args(text@));
    let (name, after_at) = split_first(word.as_slice(), '@');
    let bot = match after_at {
        Some(t) => {
            let (b, _) = split_first(t.as_slice(), '@');
            Some(b)
        },
        None => None,
    };
    Words { name, bot, args }
}

/// `a` and `b` are equal without regard to ASCII case.
pub fn eq_ignore_ascii_case(a: &[char], b: &[char]) -> (res: bool)
    ensures
        res == eq_ignoring_ascii_case(a@, b@),
{
    let la = to_ascii_lowercase(a);
    let lb = to_ascii_lowercase(b);
    chars_eq(la.as_slice(), lb.as_slice())
}

/// Checks the `@bot` suffix; the error names the other bot.
fn check_bot(words: &Words, bot_name: &str) -> (res: Result<(), CommandParseError>)
    ensures
        match res {
            Ok(_) => match words.bot {
                Some(u) => eq_ignoring_ascii_case(u@, bot_name@),
                None => true,
            },
            Err(e) => words.bot matches Some(u) && !eq_ignoring_ascii_case(u@, bot_name@)
                && e@ == CommandFailure::WrongBotName(u@),
        },
{
    match &words.bot {
        Some(u) => {
            let b = chars_of(bot_name);
            if eq_ignore_ascii_case(u.as_slice(), b.as_slice()) {
                Ok(())
            } else {
                Err(CommandParseError::WrongBotName(string_from_chars(u.as_slice())))
            }
        },
        None => Ok(()),
    }
}

fn is_literal(s: &[char], lit: &str) -> (res: bool)
    ensures
        res == (s@ == lit@),
{
    let l = chars_of(lit);
    chars_eq(s, l.as_slice())
}

// ---------------------------------------------------------------------------
// User commands
// ---------------------------------------------------------------------------

/// The commands every allowed user has.
#[derive(Debug, Clone, Copy, PartialEq, Eq, Structural)]
pub enum UserCommand {
    /// Onboarding and setup
    Start,
    /// Link Google Drive
    Connect,
    /// Set or create upload folder
    Folder,
    /// Recent download jobs
    Status,
    /// Show command list
    Help,
}

/// The slash command of a user command.
pub open spec fn user_head_text(cmd: UserCommand) -> Seq<char> {
    match cmd {
        UserCommand::Start => "/start"@,
        UserCommand::Connect => "/connect"@,
        UserCommand::Folder => "/folder"@,
        UserCommand::Status => "/status"@,
        UserCommand::Help => "/help"@,
    }
}

/// The user command with this slash name, if any.
pub open spec fn user_command_named(name: Seq<char>) -> Option<UserCommand> {
    if name == user_head_text(UserCommand::Start) {
        Some(UserCommand::Start)
    } else if name == user_head_text(UserCommand::Connect) {
        Some(UserCommand::Connect)
    } else if name == user_head_text(UserCommand::Folder) {
        Some(UserCommand::Folder)
    } else if name == user_head_text(UserCommand::Status) {
        Some(UserCommand::Status)
    } else if name == user_head_text(UserCommand::Help) {
        Some(UserCommand::Help)
    } else {
        None
    }
}

/// What the command grammar makes of `s` as a user command; arguments are ignored.
pub open spec fn user_command_spec(s: Seq<char>, bot_name: Seq<char>) -> Result<
    UserCommand,
    CommandFailure,
> {
    if addressed_elsewhere(s, bot_name) {
        Err(CommandFailure::WrongBotName(command_bot(s)->0))
    } else {
        match user_command_named(command_name(s)) {
            Some(c) => Ok(c),
            None => Err(CommandFailure::UnknownCommand(command_name(s))),
        }
    }
}

/// The message is exactly the command, or the command addressed to this bot.
pub open spec fn is_bare_command_spec(text: Seq<char>, command: Seq<char>, bot_name: Seq<char>) -> bool {
    let t = trim(text);
    t == command || (bot_name.len() > 0 && eq_ignoring_ascii_case(t, command + "@"@ + bot_name))
}

/// A user command given without arguments.
pub open spec fn parse_user_command_spec(text: Seq<char>, bot_name: Seq<char>) -> Option<
    UserCommand,
> {
    match user_command_spec(text, bot_name) {
        Ok(c) => if is_bare_command_spec(text, user_head_text(c), bot_name) {
            Some(c)
        } else {
            None
        },
        Err(_) => None,
    }
}

/// A plain command word (`/` first, no space, `@` or surrounding white space) is its own
/// command name, is addressed to no other bot, and is unchanged by trimming.
proof fn lemma_plain_command_word(w: Seq<char>, bot_name: Seq<char>)
    requires
        w.len() > 0,
        w[0] == '/',
        !w.contains(' '),
        !w.contains('@'),
        !crate::text::is_white_space(w.last()),
    ensures
        command_name(w) == w,
        !addressed_elsewhere(w, bot_name),
        trim(w) == w,
{
    crate::incoming::lemma_no_char(w, ' ');
    crate::incoming::lemma_no_char(w, '@');
    assert(w.skip(0) =~= w);
    assert(w.take(w.len() as int) =~= w);
}

/// Each user command sent on its own, with nothing around it, is recognised as that
/// command, whatever the bot's name: `/start`, `/connect`, `/folder`, `/status`, `/help`.
pub proof fn lemma_user_commands_recognised(bot_name: Seq<char>)
    ensures
        parse_user_command_spec("/start"@, bot_name) == Some(UserCommand::Start),
        parse_user_command_spec("/connect"@, bot_name) == Some(UserCommand::Connect),
        parse_user_command_spec("/folder"@, bot_name) == Some(UserCommand::Folder),
        parse_user_command_spec("/status"@, bot_name) == Some(UserCommand::Status),
        parse_user_command_spec("/help"@, bot_name) == Some(UserCommand::Help),
{
    reveal_strlit("/start");
    reveal_strlit("/connect");
    reveal_strlit("/folder");
    reveal_strlit("/status");
    reveal_strlit("/help");
    lemma_plain_command_word("/start"@, bot_name);
    lemma_plain_command_word("/connect"@, bot_name);
    lemma_plain_command_word("/folder"@, bot_name);
    lemma_plain_command_word("/status"@, bot_name);
    lemma_plain_command_word("/help"@, bot_name);
}

impl UserCommand {
    /// Parses `s` as a user command addressed to no bot or to `bot_name`; anything after
    /// the command word is ignored.
    pub fn parse(s: &str, bot_name: &str) -> (res: Result<UserCommand, CommandParseError>)
        ensures
            match res {
                Ok(c) => user_command_spec(s@, bot_name@) == Ok::<UserCommand, CommandFailure>(c),
                Err(e) => user_command_spec(s@, bot_name@) == Err::<UserCommand, CommandFailure>(
                    e@,
                ),
            },
    {
        let words = split_words(s);
        match check_bot(&words, bot_name) {
            Err(e) => return Err(e),
            Ok(_) => {},
        }
        let n = words.name.as_slice();
        if is_literal(n, "/start") {
            Ok(UserCommand::Start)
        } else if is_literal(n, "/connect") {
            Ok(UserCommand::Connect)
        } else if is_literal(n, "/folder") {
            Ok(UserCommand::Folder)
        } else if is_literal(n, "/status") {
            Ok(UserCommand::Status)
        } else if is_literal(n, "/help") {
            Ok(UserCommand::Help)
        } else {
            Err(CommandParseError::UnknownCommand(string_from_chars(n)))
        }
    }

    /// The command's name in the bot menu.
    pub fn name(self) -> (res: &'static str)
        ensures
            seq!['/'] + res@ == user_head_text(self),
    {
        proof {
            reveal_strlit("/start");
            reveal_strlit("start");
            reveal_strlit("/connect");
            reveal_strlit("connect");
            reveal_strlit("/folder");
            reveal_strlit("folder");
            reveal_strlit("/status");
            reveal_strlit("status");
            reveal_strlit("/help");
            reveal_strlit("help");
        }
        let r = match self {
            UserCommand::Start => "start",
            UserCommand::Connect => "connect",
            UserCommand::Folder => "folder",
            UserCommand::Status => "status",
            UserCommand::Help => "help",
        };
        assert(seq!['/'] + r@ =~= user_head_text(self));
        r
    }

    /// The command's description in the bot menu and the help text.
    pub fn description(self) -> (res: &'static str)
        ensures
            res@ == user_description_text(self),
    {
        match self {
            UserCommand::Start => "Onboarding and setup",
            UserCommand::Connect => "Link Google Drive",
            UserCommand::Folder => "Set or create upload folder",
            UserCommand::Status => "Recent download jobs",
            UserCommand::Help => "Show command list",
        }
    }
}

/// The description of a user command.
pub open spec fn user_description_text(cmd: UserCommand) -> Seq<char> {
    match cmd {
        UserCommand::Start => "Onboarding and setup"@,
        UserCommand::Connect => "Link Google Drive"@,
        UserCommand::Folder => "Set or create upload folder"@,
        UserCommand::Status => "Recent download jobs"@,
        UserCommand::Help => "Show command list"@,
    }
}

/// The slash command of a user command (`"/start"`, ...).
pub fn user_command_head(cmd: UserCommand) -> (res: &'static str)
    ensures
        res@ == user_head_text(cmd),
{
    match cmd {
        UserCommand::Start => "/start",
        UserCommand::Connect => "/connect",
        UserCommand::Folder => "/folder",
        UserCommand::Status => "/status",
        UserCommand::Help => "/help",
    }
}

/// Whether the trimmed message is exactly `command`, or `command@bot_name` in any ASCII
/// case when the bot has a name.
pub fn is_bare_command(text: &str, command: &str, bot_name: &str) -> (res: bool)
    ensures
        res == is_bare_command_spec(text@, command@, bot_name@),
{
    let t = trim_chars(chars_of(text).as_slice());
    let c = chars_of(command);
    if chars_eq(t.as_slice(), c.as_slice()) {
        return true;
    }
    let bn = chars_of(bot_name);
    if bn.len() > 0 {
        let mut with_bot = chars_of(command);
        with_bot.push('@');
        push_str(&mut with_bot, bot_name);
        proof {
            reveal_strlit("@");
            assert(with_bot@ =~= command@ + "@"@ + bot_name@);
        }
        if eq_ignore_ascii_case(t.as_slice(), with_bot.as_slice()) {
            return true;
        }
    }
    proof {
        assert(bot_name@.len() == 0 ==> !(bot_name@.len() > 0));
    }
    false
}

/// Parses a user command only when the message is exactly `/cmd` or `/cmd@bot`, with no
/// arguments.
pub fn parse_user_command(text: &str, bot_name: &str) -> (res: Option<UserCommand>)
    ensures
        res == parse_user_command_spec(text@, bot_name@),
{
    match UserCommand::parse(text, bot_name) {
        Ok(cmd) => if is_bare_command(text, user_command_head(cmd), bot_name) {
            Some(cmd)
        } else {
            None
        },
        Err(_) => None,
    }
}

/// The help text: one line per user command, then what to send.
pub open spec fn help_text_spec() -> Seq<char> {
    "/start \u{2014} Onboarding and setup\n/connect \u{2014} Link Google Drive\n/folder \u{2014} Set or create upload folder\n/status \u{2014} Recent download jobs\n/help \u{2014} Show command list\n\nSend a link or file to download to your Drive."@
}

/// The reply to `/help`.
pub fn help_text() -> (res: String)
    ensures
        res@ == help_text_spec(),
{
    "/start \u{2014} Onboarding and setup\n/connect \u{2014} Link Google Drive\n/folder \u{2014} Set or create upload folder\n/status \u{2014} Recent download jobs\n/help \u{2014} Show command list\n\nSend a link or file to download to your Drive.".to_owned()
}

// ---------------------------------------------------------------------------
// Admin commands
// ---------------------------------------------------------------------------

/// The commands of the super-admin.
#[derive(Debug, Clone, Copy, PartialEq, Eq, Structural)]
pub enum AdminCommand {
    /// Allowlist a Telegram user ID
    Adduser(i64),
    /// Remove user from allowlist
    Removeuser(i64),
    /// List allowlisted user IDs
    Listusers,
}

/// What the command grammar makes of `s` as an admin command: `/adduser` and
/// `/removeuser` take their whole argument text as one `i64`.
pub open spec fn admin_command_spec(s: Seq<char>, bot_name: Seq<char>) -> Result<
    AdminCommand,
    CommandFailure,
> {
    let name = command_name(s);
    if addressed_elsewhere(s, bot_name) {
        Err(CommandFailure::WrongBotName(command_bot(s)->0))
    } else if name == "/adduser"@ {
        match parse_i64_spec(command_args(s)) {
            Some(n) => Ok(AdminCommand::Adduser(n)),
            None => Err(CommandFailure::IncorrectFormat),
        }
    } else if name == "/removeuser"@ {
        match parse_i64_spec(command_args(s)) {
            Some(n) => Ok(AdminCommand::Removeuser(n)),
            None => Err(CommandFailure::IncorrectFormat),
        }
    } else if name == "/listusers"@ {
        Ok(AdminCommand::Listusers)
    } else {
        Err(CommandFailure::UnknownCommand(name))
    }
}

/// `/adduser N` and `/removeuser N` carry the user id `N` written in decimal, and
/// `/listusers` lists the allowlist, whatever the bot's name.
pub proof fn lemma_admin_commands_recognised(n: i64, bot_name: Seq<char>)
    requires
        n >= 0,
    ensures
        admin_command_spec("/adduser "@ + crate::text::decimal(n as nat), bot_name) == Ok::<
            AdminCommand,
            CommandFailure,
        >(AdminCommand::Adduser(n)),
        admin_command_spec("/removeuser "@ + crate::text::decimal(n as nat), bot_name) == Ok::<
            AdminCommand,
            CommandFailure,
        >(AdminCommand::Removeuser(n)),
        admin_command_spec("/listusers"@, bot_name) == Ok::<AdminCommand, CommandFailure>(
            AdminCommand::Listusers,
        ),
{
    reveal_strlit("/adduser ");
    reveal_strlit("/adduser");
    reveal_strlit("/removeuser ");
    reveal_strlit("/removeuser");
    reveal_strlit("/listusers");
    let d = crate::text::decimal(n as nat);
    crate::text::lemma_decimal_digits(n as nat);
    assert(crate::text::is_digit(d[0]));
    assert(parse_i64_spec(d) == Some(n)) by {
        assert(d[0] != '+' && d[0] != '-');
    }
    lemma_admin_with_argument("/adduser"@, d, bot_name);
    assert("/adduser "@ + d =~= "/adduser"@ + seq![' '] + d);
    lemma_admin_with_argument("/removeuser"@, d, bot_name);
    assert("/removeuser "@ + d =~= "/removeuser"@ + seq![' '] + d);
    lemma_plain_command_word("/listusers"@, bot_name);
    crate::incoming::lemma_no_char("/listusers"@, ' ');
}

/// A command word followed by a space and an argument: the word is the command, the
/// argument is what follows the space, and no other bot is addressed.
proof fn lemma_admin_with_argument(w: Seq<char>, arg: Seq<char>, bot_name: Seq<char>)
    requires
        !w.contains(' '),
        !w.contains('@'),
    ensures
        command_name(w + seq![' '] + arg) == w,
        command_args(w + seq![' '] + arg) == arg,
        !addressed_elsewhere(w + seq![' '] + arg, bot_name),
{
    let s = w + seq![' '] + arg;
    crate::incoming::lemma_first_char_after(w, ' ', arg);
    assert(s.take(w.len() as int) =~= w);
    assert(s.skip(w.len() as int + 1) =~= arg);
    crate::incoming::lemma_no_char(w, '@');
}

impl AdminCommand {
    /// Parses `s` as an admin command addressed to no bot or to `bot_name`.
    pub fn parse(s: &str, bot_name: &str) -> (res: Result<AdminCommand, CommandParseError>)
        ensures
            match res {
                Ok(c) => admin_command_spec(s@, bot_name@) == Ok::<AdminCommand, CommandFailure>(
                    c,
                ),
                Err(e) => admin_command_spec(s@, bot_name@) == Err::<AdminCommand, CommandFailure>(
                    e@,
                ),
            },
    {
        let words = split_words(s);
        match check_bot(&words, bot_name) {
            Err(e) => return Err(e),
            Ok(_) => {},
        }
        let n = words.name.as_slice();
        if is_literal(n, "/adduser") {
            match parse_i64(words.args.as_slice()) {
                Some(v) => Ok(AdminCommand::Adduser(v)),
                None => Err(CommandParseError::IncorrectFormat),
            }
        } else if is_literal(n, "/removeuser") {
            match parse_i64(words.args.as_slice()) {
                Some(v) => Ok(AdminCommand::Removeuser(v)),
                None => Err(CommandParseError::IncorrectFormat),
            }
        } else if is_literal(n, "/listusers") {
            Ok(AdminCommand::Listusers)
        } else {
            Err(CommandParseError::UnknownCommand(string_from_chars(n)))
        }
    }
}

/// Parses an admin command; `/adduser` and `/removeuser` need a numeric id.
pub fn parse_admin_command(text: &str, bot_name: &str) -> (res: Option<AdminCommand>)
    ensures
        match admin_command_spec(text@, bot_name@) {
            Ok(c) => res == Some(c),
            Err(_) => res is None,
        },
{
    match AdminCommand::parse(text, bot_name) {
        Ok(c) => Some(c),
        Err(_) => None,
    }
}

/// The user commands in menu order, with their names and descriptions.
pub fn user_command_menu() -> (res: Vec<(&'static str, &'static str)>)
    ensures
        res@.len() == 5,
        forall|i: int|
            0 <= i < 5 ==> seq!['/'] + (#[trigger] res@[i]).0@ == user_head_text(
                user_menu_order()[i],
            ) && res@[i].1@ == user_description_text(user_menu_order()[i]),
{
    let mut out: Vec<(&'static str, &'static str)> = Vec::new();
    let order = [
        UserCommand::Start,
        UserCommand::Connect,
        UserCommand::Folder,
        UserCommand::Status,
        UserCommand::Help,
    ];
    assert(order@ =~= user_menu_order());
    let mut k: usize = 0;
    while k < 5
        invariant
            k <= 5,
            order@ == user_menu_order(),
            out@.len() == k,
            forall|i: int|
                0 <= i < k ==> seq!['/'] + (#[trigger] out@[i]).0@ == user_head_text(
                    user_menu_order()[i],
                ) && out@[i].1@ == user_description_text(user_menu_order()[i]),
        decreases 5 - k,
    {
        let c = order[k];
        out.push((c.name(), c.description()));
        k = k + 1;
    }
    out
}

/// The order of the user commands in the menu and the help text.
pub open spec fn user_menu_order() -> Seq<UserCommand> {
    seq![
        UserCommand::Start,
        UserCommand::Connect,
        UserCommand::Folder,
        UserCommand::Status,
        UserCommand::Help,
    ]
}

/// The admin commands in menu order, with their names and descriptions.
pub fn admin_command_menu() -> (res: Vec<(&'static str, &'static str)>)
    ensures
        res@.len() == 3,
        res@[0].0@ == "adduser"@ && res@[0].1@ == "Allowlist a Telegram user ID"@,
        res@[1].0@ == "removeuser"@ && res@[1].1@ == "Remove user from allowlist"@,
        res@[2].0@ == "listusers"@ && res@[2].1@ == "List allowlisted user IDs"@,
{
    let mut out: Vec<(&'static str, &'static str)> = Vec::new();
    out.push(("adduser", "Allowlist a Telegram user ID"));
    out.push(("removeuser", "Remove user from allowlist"));
    out.push(("listusers", "List allowlisted user IDs"));
    out
}

} // verus!
