use afrasyab::replies::require_allowed;
use afrasyab::commands::{help_text, AdminCommand};
use afrasyab::replies::{
    access_denied_message, admin_reply, folder_command_step, folder_created_message,
    folder_renamed_message, format_ack, job_readiness, oauth_param_missing, oauth_redirect_url,
    oauth_start_url, onboarding_state_from, parse_folder_name, playlist_item_progress,
    playlist_queued_ack, playlist_queued_note, start_reply, success_html, telegram_webhook_url,
    FolderCommandStep, Lookup, OAuthRefusal, OnboardingState,
};

#[test]
fn onboarding_and_start() {
    assert_eq!(onboarding_state_from(false, true), OnboardingState::NeedsGoogle);
    assert_eq!(onboarding_state_from(true, false), OnboardingState::NeedsFolder);
    assert_eq!(onboarding_state_from(true, true), OnboardingState::Ready);
    assert_eq!(start_reply(OnboardingState::NeedsGoogle, None), None);
    assert_eq!(start_reply(OnboardingState::NeedsFolder, None).unwrap(), "Google Drive is connected. Run /folder to set up your upload folder.");
    assert_eq!(
        start_reply(OnboardingState::Ready, Some("Clips")).unwrap(),
        format!("Afrasyab is ready.\nUpload folder: Clips\n\nSend links or files to download. {}", help_text())
    );
    assert!(start_reply(OnboardingState::Ready, None).unwrap().contains("Upload folder: your folder\n"));
    assert_eq!(start_reply(OnboardingState::NotAllowed, None).unwrap(), access_denied_message());
}

#[test]
fn readiness_messages() {
    assert_eq!(job_readiness(Lookup::Present, Lookup::Present), Ok(()));
    assert_eq!(job_readiness(Lookup::Failed, Lookup::Present), Err("Could not verify your Google connection. Try again or use /connect."));
    assert_eq!(job_readiness(Lookup::Missing, Lookup::Failed), Err("Connect Google Drive first with /connect."));
    assert_eq!(job_readiness(Lookup::Present, Lookup::Failed), Err("Could not verify your Drive folder. Try /folder."));
    assert_eq!(job_readiness(Lookup::Present, Lookup::Missing), Err("Set up your upload folder with /folder before sending files."));
}

#[test]
fn folder_names() {
    assert_eq!(parse_folder_name("  My Videos \n").unwrap(), "My Videos");
    assert_eq!(parse_folder_name("   "), Err("Name cannot be empty."));
    assert_eq!(parse_folder_name(" /start"), Err("That looks like a command, not a folder name."));
    assert!(parse_folder_name(&"a".repeat(100)).is_ok());
    assert_eq!(parse_folder_name(&"a".repeat(101)), Err("Name must be at most 100 characters."));
    // The limit counts characters, not UTF-8 bytes.
    assert_eq!(parse_folder_name(&"é".repeat(100)), Ok("é".repeat(100)));
    assert_eq!(parse_folder_name(&"é".repeat(101)), Err("Name must be at most 100 characters."));
    assert_eq!(folder_command_step(false, true), FolderCommandStep::NeedConnect);
    assert_eq!(folder_command_step(true, true), FolderCommandStep::ChooseAction);
    assert_eq!(folder_command_step(true, false), FolderCommandStep::AskName);
    assert_eq!(folder_renamed_message("X"), "Folder renamed to “X”.");
    assert_eq!(folder_created_message("Y"), "Uploads now go to “Y”.");
}

#[test]
fn admin_replies() {
    assert_eq!(admin_reply(AdminCommand::Adduser(12345), &vec![]), "Added user 12345.");
    assert_eq!(admin_reply(AdminCommand::Removeuser(-3), &vec![]), "Removed user -3.");
    assert_eq!(admin_reply(AdminCommand::Listusers, &vec![]), "No allowlisted users.");
    assert_eq!(admin_reply(AdminCommand::Listusers, &vec![1, 22, 333]), "Allowlisted users:\n1\n22\n333");
}

#[test]
fn acknowledgements() {
    assert_eq!(format_ack(true), "Queued.");
    assert_eq!(format_ack(false), "Not queued — complete /connect and /folder first.");
    assert_eq!(playlist_queued_ack(4), "Queued 4 items.");
    assert_eq!(playlist_queued_note(4), "Queued 4 playlist items.");
    assert_eq!(playlist_item_progress(0, 4), (1, 4));
    assert_eq!(playlist_item_progress(3, 4), (4, 4));
}

#[test]
fn oauth_links_and_pages() {
    assert_eq!(oauth_start_url("https://bot.example", "abc"), "https://bot.example/oauth/google?state=abc");
    assert_eq!(oauth_redirect_url("https://bot.example"), "https://bot.example/oauth/google/callback");
    assert_eq!(telegram_webhook_url("https://bot.example"), "https://bot.example/telegram/webhook");
    assert!(oauth_param_missing(""));
    assert!(!oauth_param_missing("x"));
    assert_eq!(OAuthRefusal::BadRequest.status_code(), 400);
    assert_eq!(OAuthRefusal::Forbidden.status_code(), 403);
    assert_eq!(OAuthRefusal::BadGateway.status_code(), 502);
    assert_eq!(OAuthRefusal::Internal.status_code(), 500);
    let ok = success_html(true);
    assert!(ok.starts_with("<!DOCTYPE html>\n<html lang=\"en\">"));
    assert!(ok.contains("<title>Afrasyab — Google connected</title>"));
    assert!(ok.contains("<strong>Afrasyab</strong> folder"));
    assert!(ok.contains("    body { font-family: system-ui, sans-serif; max-width: 32rem; margin: 4rem auto; line-height: 1.5; }\n"));
    assert!(ok.ends_with("</p>\n</body>\n</html>"));
    assert!(success_html(false).contains("could not create your upload folder automatically"));
}

#[test]
fn allowlist_guard_denies_unknown_users() {
    assert_eq!(require_allowed(Some(true)), Ok(()));
    assert_eq!(require_allowed(Some(false)), Err("You don't have access to Afrasyab. Ask the admin."));
    assert_eq!(require_allowed(None), Err("You don't have access to Afrasyab. Ask the admin."));
}
