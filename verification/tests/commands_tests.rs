use afrasyab::commands::{
    help_text, is_bare_command, parse_admin_command, parse_user_command, AdminCommand,
    CommandParseError, UserCommand,
};

#[test]
fn parse_user_start() {
    assert_eq!(UserCommand::parse("/start", "").unwrap(), UserCommand::Start);
}

#[test]
fn parse_user_help_with_bot_suffix() {
    assert_eq!(UserCommand::parse("/help@AfrasyabBot", "AfrasyabBot").unwrap(), UserCommand::Help);
}

#[test]
fn parse_user_status_with_bot_suffix() {
    assert_eq!(UserCommand::parse("/status@MyBot", "MyBot").unwrap(), UserCommand::Status);
}

#[test]
fn reject_user_start_with_extra_args() {
    assert!(parse_user_command("/start foo", "").is_none());
}

#[test]
fn reject_user_folder_with_name() {
    assert!(parse_user_command("/folder My Videos", "").is_none());
}

#[test]
fn parse_admin_adduser() {
    assert_eq!(AdminCommand::parse("/adduser 12345", "").unwrap(), AdminCommand::Adduser(12345));
}

#[test]
fn parse_admin_listusers() {
    assert_eq!(AdminCommand::parse("/listusers", "").unwrap(), AdminCommand::Listusers);
}

#[test]
fn reject_admin_adduser_without_id() {
    assert!(AdminCommand::parse("/adduser", "").is_err());
}

#[test]
fn help_text_includes_all_user_commands() {
    let text = help_text();
    for cmd in ["start", "connect", "folder", "status", "help"] {
        assert!(text.contains(cmd), "missing {cmd} in help");
    }
    assert!(text.contains("Send a link or file"));
}

#[test]
fn help_text_lists_commands_with_descriptions() {
    let text = help_text();
    assert!(text.starts_with("/start — Onboarding and setup\n/connect — Link Google Drive\n"));
    assert!(text.ends_with("/help — Show command list\n\nSend a link or file to download to your Drive."));
    for c in [UserCommand::Start, UserCommand::Connect, UserCommand::Folder, UserCommand::Status, UserCommand::Help] {
        assert!(text.contains(&format!("/{} — {}", c.name(), c.description())));
    }
}

#[test]
fn command_grammar_edge_cases() {
    assert!(matches!(UserCommand::parse("/help@OtherBot", "MyBot"), Err(CommandParseError::WrongBotName(n)) if n == "OtherBot"));
    assert_eq!(UserCommand::parse("/help@mybot", "MyBot").unwrap(), UserCommand::Help);
    assert!(matches!(UserCommand::parse("/unknown", ""), Err(CommandParseError::UnknownCommand(c)) if c == "/unknown"));
    assert!(matches!(UserCommand::parse("hello", ""), Err(CommandParseError::UnknownCommand(c)) if c == "hello"));
    assert_eq!(UserCommand::parse("/start foo", "").unwrap(), UserCommand::Start);
    assert_eq!(parse_user_command("/start  ", ""), Some(UserCommand::Start));
    assert_eq!(parse_user_command("  /start", ""), None);
    assert_eq!(parse_user_command("/START@MYBOT", "MyBot"), None);
    assert_eq!(parse_user_command("/start@MYBOT", "MyBot"), Some(UserCommand::Start));
    assert!(is_bare_command("/status@Bot", "/status", "bot"));
    assert!(!is_bare_command("/status@Bot", "/status", ""));
}

#[test]
fn admin_arguments() {
    assert_eq!(parse_admin_command("/removeuser -7", ""), Some(AdminCommand::Removeuser(-7)));
    assert_eq!(parse_admin_command("/adduser +42", ""), Some(AdminCommand::Adduser(42)));
    assert_eq!(parse_admin_command("/adduser 1 2", ""), None);
    assert_eq!(parse_admin_command("/adduser  5", ""), None);
    assert_eq!(parse_admin_command("/adduser 99999999999999999999", ""), None);
    assert_eq!(parse_admin_command("/listusers now", ""), Some(AdminCommand::Listusers));
    assert!(matches!(AdminCommand::parse("/adduser x", ""), Err(CommandParseError::IncorrectFormat)));
    assert_eq!(parse_admin_command("/start", ""), None);
}
