//! Configuration: validation of the environment settings into a [`Config`].
//!
//! Reading the process environment is left to the caller, who hands over an
//! [`EnvSnapshot`]: each variable as `Some(text)`, or `None` when it is unset (or not
//! valid Unicode).
use vstd::prelude::*;
use crate::scratch_disk::{parse_scratch_thresholds_mb, thresholds_spec, ScratchThresholds};
use crate::text::{
    all_digits, ascii_lowercase, chars_of, digits_value, is_digit, lemma_digits_value_prefix, is_ascii_alnum, parse_i64, parse_i64_spec, parse_u64,
    parse_u64_spec, push_decimal, push_str, string_from_chars, to_ascii_lowercase, trail_count,
    trim, trim_chars,
};
use crate::upload::{
    chunk_check, validate_upload_chunk_bytes, ChunkSizeError, DEFAULT_MAX_FILE_BYTES,
    DEFAULT_UPLOAD_CHUNK_BYTES,
};
use crate::weburl::opt_view;

verus! {

/// How Telegram updates reach the bot.
#[derive(Debug, Clone, Copy, PartialEq, Eq, Structural)]
pub enum TelegramMode {
    Polling,
    Webhook,
}

/// The environment variables the configuration reads.
#[derive(Debug, Clone, Copy, PartialEq, Eq, Structural)]
pub enum EnvVar {
    TokenEncryptionKey,
    PublicBaseUrl,
    JobScratchMinFreeMb,
    JobScratchResumeFreeMb,
    MaxFileBytes,
    DriveUploadChunkBytes,
    TelegramBotToken,
    SuperAdminTelegramId,
    GoogleClientId,
    GoogleClientSecret,
    DatabaseUrl,
    MaxPlaylistItems,
    MaxConcurrentJobs,
}

impl EnvVar {
    /// The variable's name.
    pub open spec fn name_spec(self) -> Seq<char> {
        match self {
            EnvVar::TokenEncryptionKey => "TOKEN_ENCRYPTION_KEY"@,
            EnvVar::PublicBaseUrl => "PUBLIC_BASE_URL"@,
            EnvVar::JobScratchMinFreeMb => "JOB_SCRATCH_MIN_FREE_MB"@,
            EnvVar::JobScratchResumeFreeMb => "JOB_SCRATCH_RESUME_FREE_MB"@,
            EnvVar::MaxFileBytes => "MAX_FILE_BYTES"@,
            EnvVar::DriveUploadChunkBytes => "DRIVE_UPLOAD_CHUNK_BYTES"@,
            EnvVar::TelegramBotToken => "TELEGRAM_BOT_TOKEN"@,
            EnvVar::SuperAdminTelegramId => "SUPER_ADMIN_TELEGRAM_ID"@,
            EnvVar::GoogleClientId => "GOOGLE_CLIENT_ID"@,
            EnvVar::GoogleClientSecret => "GOOGLE_CLIENT_SECRET"@,
            EnvVar::DatabaseUrl => "DATABASE_URL"@,
            EnvVar::MaxPlaylistItems => "MAX_PLAYLIST_ITEMS"@,
            EnvVar::MaxConcurrentJobs => "MAX_CONCURRENT_JOBS"@,
        }
    }

    /// The variable's name.
    pub fn name(&self) -> (res: &'static str)
        ensures
            res@ == self.name_spec(),
    {
        match self {
            EnvVar::TokenEncryptionKey => "TOKEN_ENCRYPTION_KEY",
            EnvVar::PublicBaseUrl => "PUBLIC_BASE_URL",
            EnvVar::JobScratchMinFreeMb => "JOB_SCRATCH_MIN_FREE_MB",
            EnvVar::JobScratchResumeFreeMb => "JOB_SCRATCH_RESUME_FREE_MB",
            EnvVar::MaxFileBytes => "MAX_FILE_BYTES",
            EnvVar::DriveUploadChunkBytes => "DRIVE_UPLOAD_CHUNK_BYTES",
            EnvVar::TelegramBotToken => "TELEGRAM_BOT_TOKEN",
            EnvVar::SuperAdminTelegramId => "SUPER_ADMIN_TELEGRAM_ID",
            EnvVar::GoogleClientId => "GOOGLE_CLIENT_ID",
            EnvVar::GoogleClientSecret => "GOOGLE_CLIENT_SECRET",
            EnvVar::DatabaseUrl => "DATABASE_URL",
            EnvVar::MaxPlaylistItems => "MAX_PLAYLIST_ITEMS",
            EnvVar::MaxConcurrentJobs => "MAX_CONCURRENT_JOBS",
        }
    }
}

/// Why a text is not an unsigned integer, as `core::num::IntErrorKind` tells it.
#[derive(Debug, Clone, Copy, PartialEq, Eq, Structural)]
pub enum IntErrorKind {
    /// The text is empty.
    Empty,
    /// A character is not a digit (a lone sign counts as one).
    InvalidDigit,
    /// The value is too large for the type.
    PosOverflow,
}

impl IntErrorKind {
    /// The text of the parse error.
    pub open spec fn message_spec(self) -> Seq<char> {
        match self {
            IntErrorKind::Empty => "cannot parse integer from empty string"@,
            IntErrorKind::InvalidDigit => "invalid digit found in string"@,
            IntErrorKind::PosOverflow => "number too large to fit in target type"@,
        }
    }

    /// The text of the parse error.
    pub fn message(&self) -> (res: &'static str)
        ensures
            res@ == self.message_spec(),
    {
        match self {
            IntErrorKind::Empty => "cannot parse integer from empty string",
            IntErrorKind::InvalidDigit => "invalid digit found in string",
            IntErrorKind::PosOverflow => "number too large to fit in target type",
        }
    }
}

/// Why the configuration was refused.
#[derive(Debug, Clone, PartialEq, Eq)]
pub enum ConfigError {
    /// A required variable is unset.
    Missing(EnvVar),
    /// `TOKEN_ENCRYPTION_KEY` is not standard base64.
    InvalidKeyEncoding,
    /// `TOKEN_ENCRYPTION_KEY` does not decode to 32 bytes.
    InvalidKeyLength,
    /// `TELEGRAM_MODE` (lowercased) is neither `polling` nor `webhook`.
    InvalidTelegramMode(String),
    /// Webhook mode without `TELEGRAM_WEBHOOK_SECRET`.
    MissingWebhookSecret,
    /// `TELEGRAM_WEBHOOK_SECRET` is longer than 256 characters or has other characters
    /// than `[A-Za-z0-9_-]`.
    InvalidWebhookSecret,
    /// An unsigned numeric variable does not parse.
    InvalidNumber(EnvVar),
    /// `SUPER_ADMIN_TELEGRAM_ID` is not a number.
    InvalidAdminId,
    /// A count (`MAX_PLAYLIST_ITEMS`, `MAX_CONCURRENT_JOBS`) does not parse, and why.
    InvalidCount(EnvVar, IntErrorKind),
    /// `MAX_FILE_BYTES` is 0.
    ZeroMaxFileBytes,
    /// `DRIVE_UPLOAD_CHUNK_BYTES` is not a valid chunk size.
    InvalidChunkSize(ChunkSizeError),
}

/// The plain content of a [`ConfigError`].
pub enum ConfigErrorView {
    Missing(EnvVar),
    InvalidKeyEncoding,
    InvalidKeyLength,
    InvalidTelegramMode(Seq<char>),
    MissingWebhookSecret,
    InvalidWebhookSecret,
    InvalidNumber(EnvVar),
    InvalidAdminId,
    InvalidCount(EnvVar, IntErrorKind),
    ZeroMaxFileBytes,
    InvalidChunkSize(ChunkSizeError),
}

impl View for ConfigError {
    type V = ConfigErrorView;

    open spec fn view(&self) -> ConfigErrorView {
        match self {
            ConfigError::Missing(v) => ConfigErrorView::Missing(*v),
            ConfigError::InvalidKeyEncoding => ConfigErrorView::InvalidKeyEncoding,
            ConfigError::InvalidKeyLength => ConfigErrorView::InvalidKeyLength,
            ConfigError::InvalidTelegramMode(m) => ConfigErrorView::InvalidTelegramMode(m@),
            ConfigError::MissingWebhookSecret => ConfigErrorView::MissingWebhookSecret,
            ConfigError::InvalidWebhookSecret => ConfigErrorView::InvalidWebhookSecret,
            ConfigError::InvalidNumber(v) => ConfigErrorView::InvalidNumber(*v),
            ConfigError::InvalidAdminId => ConfigErrorView::InvalidAdminId,
            ConfigError::InvalidCount(v, k) => ConfigErrorView::InvalidCount(*v, *k),
            ConfigError::ZeroMaxFileBytes => ConfigErrorView::ZeroMaxFileBytes,
            ConfigError::InvalidChunkSize(e) => ConfigErrorView::InvalidChunkSize(*e),
        }
    }
}

impl ConfigError {
    /// The message of an error.
    pub open spec fn message_spec(self) -> Seq<char> {
        match self {
            ConfigError::Missing(v) => "missing "@ + v.name_spec()
                + " (set in .env or export it before running afrasyab)"@,
            ConfigError::InvalidKeyEncoding => "TOKEN_ENCRYPTION_KEY must be valid base64"@,
            ConfigError::InvalidKeyLength => "TOKEN_ENCRYPTION_KEY must be 32 bytes"@,
            ConfigError::InvalidTelegramMode(m) => "invalid TELEGRAM_MODE="@ + str_debug_text(m@)
                + " (use \"polling\" or \"webhook\")"@,
            ConfigError::MissingWebhookSecret =>
                "TELEGRAM_WEBHOOK_SECRET is required when TELEGRAM_MODE=webhook"@,
            ConfigError::InvalidWebhookSecret =>
                "TELEGRAM_WEBHOOK_SECRET must be 1-256 chars from [A-Za-z0-9_-]"@,
            ConfigError::InvalidNumber(v) => "invalid "@ + v.name_spec(),
            ConfigError::InvalidAdminId =>
                "SUPER_ADMIN_TELEGRAM_ID must be a numeric Telegram user id"@,
            ConfigError::InvalidCount(_, k) => k.message_spec(),
            ConfigError::ZeroMaxFileBytes => "MAX_FILE_BYTES must be greater than 0"@,
            ConfigError::InvalidChunkSize(e) => e.message_spec(),
        }
    }

    /// The message of an error, naming the variable at fault.
    pub fn message(&self) -> (res: String)
        ensures
            res@ == self.message_spec(),
    {
        match self {
            ConfigError::Missing(v) => {
                let mut out = chars_of("missing ");
                push_str(&mut out, v.name());
                push_str(&mut out, " (set in .env or export it before running afrasyab)");
                string_from_chars(out.as_slice())
            },
            ConfigError::InvalidKeyEncoding => "TOKEN_ENCRYPTION_KEY must be valid base64".to_owned(),
            ConfigError::InvalidKeyLength => "TOKEN_ENCRYPTION_KEY must be 32 bytes".to_owned(),
            ConfigError::InvalidTelegramMode(m) => {
                let mut out = chars_of("invalid TELEGRAM_MODE=");
                let quoted = debug_quoted(m.as_str());
                push_str(&mut out, quoted.as_str());
                push_str(&mut out, " (use \"polling\" or \"webhook\")");
                string_from_chars(out.as_slice())
            },
            ConfigError::MissingWebhookSecret =>
                "TELEGRAM_WEBHOOK_SECRET is required when TELEGRAM_MODE=webhook".to_owned(),
            ConfigError::InvalidWebhookSecret =>
                "TELEGRAM_WEBHOOK_SECRET must be 1-256 chars from [A-Za-z0-9_-]".to_owned(),
            ConfigError::InvalidNumber(v) => {
                let mut out = chars_of("invalid ");
                push_str(&mut out, v.name());
                string_from_chars(out.as_slice())
            },
            ConfigError::InvalidAdminId =>
                "SUPER_ADMIN_TELEGRAM_ID must be a numeric Telegram user id".to_owned(),
            ConfigError::InvalidCount(_, k) => k.message().to_owned(),
            ConfigError::ZeroMaxFileBytes => "MAX_FILE_BYTES must be greater than 0".to_owned(),
            ConfigError::InvalidChunkSize(e) => e.message(),
        }
    }
}

/// The values of the environment variables the configuration reads.
#[derive(Debug, Clone, Default)]
pub struct EnvSnapshot {
    pub token_encryption_key: Option<String>,
    pub public_base_url: Option<String>,
    pub telegram_mode: Option<String>,
    pub telegram_webhook_secret: Option<String>,
    pub job_scratch_min_free_mb: Option<String>,
    pub job_scratch_resume_free_mb: Option<String>,
    pub max_file_bytes: Option<String>,
    pub drive_upload_chunk_bytes: Option<String>,
    pub telegram_bot_token: Option<String>,
    pub super_admin_telegram_id: Option<String>,
    pub google_client_id: Option<String>,
    pub google_client_secret: Option<String>,
    pub database_url: Option<String>,
    pub http_bind: Option<String>,
    pub max_playlist_items: Option<String>,
    pub max_concurrent_jobs: Option<String>,
}

/// The bot's configuration.
#[derive(Debug, Clone)]
pub struct Config {
    pub telegram_bot_token: String,
    pub super_admin_telegram_id: i64,
    pub google_client_id: String,
    pub google_client_secret: String,
    pub public_base_url: String,
    pub token_encryption_key: [u8; 32],
    pub database_url: String,
    pub http_bind: String,
    pub max_playlist_items: usize,
    pub max_concurrent_jobs: usize,
    pub telegram_mode: TelegramMode,
    pub telegram_webhook_secret: Option<String>,
    pub scratch_thresholds: ScratchThresholds,
    pub max_file_bytes: u64,
    pub drive_upload_chunk_bytes: u64,
}

/// The text that `str`'s `Debug` formatting writes for `s`: quoted, with escapes.
pub uninterp spec fn str_debug_text(s: Seq<char>) -> Seq<char>;

/// Writes a text as `{:?}` does.
///
/// Trusted: `<str as core::fmt::Debug>::fmt` through `format!`. The contract names the
/// result `str_debug_text(s)`; the quoting and escaping rules are not stated.
#[verifier::external_body]
fn debug_quoted(s: &str) -> (res: String)
    ensures
        res@ == str_debug_text(s@),
{
    format!("{:?}", s)
}

/// What the `base64` crate's `STANDARD` engine decodes `s` to, or `None` when it rejects it.
pub uninterp spec fn base64_standard_decoded(s: Seq<char>) -> Option<Seq<u8>>;

/// Decodes standard (padded) base64.
///
/// Trusted: `base64::Engine::decode` with `base64::engine::general_purpose::STANDARD`.
/// The contract names the result; the alphabet and padding rules are not stated.
#[verifier::external_body]
fn base64_decode(s: &str) -> (res: Option<Vec<u8>>)
    ensures
        match res {
            Some(v) => base64_standard_decoded(s@) == Some(v@),
            None => base64_standard_decoded(s@) is None,
        },
{
    match base64::Engine::decode(&base64::engine::general_purpose::STANDARD, s) {
        Ok(v) => Some(v),
        Err(_) => None,
    }
}

// ---------------------------------------------------------------------------
// The rules, one variable at a time
// ---------------------------------------------------------------------------

/// The mode named by `TELEGRAM_MODE`: unset, empty and `polling` mean polling, `webhook`
/// means webhook, in any ASCII case; anything else is refused with its lowercase form.
pub open spec fn telegram_mode_spec(raw: Option<Seq<char>>) -> Result<TelegramMode, Seq<char>> {
    let low = ascii_lowercase(
        match raw {
            Some(r) => r,
            None => Seq::empty(),
        },
    );
    if low.len() == 0 || low == "polling"@ {
        Ok(TelegramMode::Polling)
    } else if low == "webhook"@ {
        Ok(TelegramMode::Webhook)
    } else {
        Err(low)
    }
}

/// A character allowed in the webhook secret.
pub open spec fn secret_char(c: char) -> bool {
    is_ascii_alnum(c) || c == '_' || c == '-'
}

/// The webhook secret rules: 1 to 256 characters from `[A-Za-z0-9_-]`.
pub open spec fn valid_webhook_secret(s: Seq<char>) -> bool {
    0 < s.len() <= 256 && forall|i: int| 0 <= i < s.len() ==> secret_char(#[trigger] s[i])
}

/// The secret the mode needs: none when polling; when using a webhook, a valid one.
pub open spec fn webhook_secret_spec(mode: TelegramMode, raw: Option<Seq<char>>) -> Result<
    Option<Seq<char>>,
    ConfigErrorView,
> {
    match mode {
        TelegramMode::Polling => Ok(None),
        TelegramMode::Webhook => {
            let s = match raw {
                Some(r) => r,
                None => Seq::empty(),
            };
            if s.len() == 0 {
                Err(ConfigErrorView::MissingWebhookSecret)
            } else if !valid_webhook_secret(s) {
                Err(ConfigErrorView::InvalidWebhookSecret)
            } else {
                Ok(Some(s))
            }
        },
    }
}

/// An optional unsigned number: the default when unset, its value when it parses.
pub open spec fn u64_setting(raw: Option<Seq<char>>, default: u64) -> Option<u64> {
    match raw {
        None => Some(default),
        Some(r) => parse_u64_spec(r),
    }
}

/// Some leading run of digits of `ds` is worth more than `usize::MAX`.
pub open spec fn digits_overflow_usize(ds: Seq<char>) -> bool {
    exists|j: int|
        0 <= j <= ds.len() && all_digits(#[trigger] ds.take(j)) && digits_value(ds.take(j))
            > usize::MAX
}

/// `usize::from_str`: an optional `+`, then ASCII digits. The digits are read from the
/// left, so a value that grows past `usize::MAX` is an overflow even when a non-digit
/// follows, and a non-digit before that point is an invalid digit.
pub open spec fn parse_usize_spec(s: Seq<char>) -> Result<usize, IntErrorKind> {
    if s.len() == 0 {
        Err(IntErrorKind::Empty)
    } else if s == seq!['+'] || s == seq!['-'] {
        Err(IntErrorKind::InvalidDigit)
    } else {
        parse_usize_digits(
            if s[0] == '+' {
                s.drop_first()
            } else {
                s
            },
        )
    }
}

/// `usize::from_str` on the text after its sign.
pub open spec fn parse_usize_digits(ds: Seq<char>) -> Result<usize, IntErrorKind> {
    if digits_overflow_usize(ds) {
        Err(IntErrorKind::PosOverflow)
    } else if !all_digits(ds) {
        Err(IntErrorKind::InvalidDigit)
    } else {
        Ok(digits_value(ds) as usize)
    }
}

/// The mode of a snapshot, or the lowercase text that names no mode.
pub open spec fn mode_of(env: EnvSnapshot) -> Result<TelegramMode, Seq<char>> {
    telegram_mode_spec(opt_view(env.telegram_mode))
}

/// The value of a hexadecimal digit, in either case.
pub open spec fn hex_value(c: char) -> Option<u8> {
    if '0' <= c <= '9' {
        Some((c as u32 - '0' as u32) as u8)
    } else if 'a' <= c <= 'f' {
        Some((c as u32 - 'a' as u32 + 10) as u8)
    } else if 'A' <= c <= 'F' {
        Some((c as u32 - 'A' as u32 + 10) as u8)
    } else {
        None
    }
}

/// A key written as exactly 64 hexadecimal digits.
pub open spec fn is_hex_key(s: Seq<char>) -> bool {
    s.len() == 64 && forall|i: int| 0 <= i < 64 ==> (#[trigger] hex_value(s[i])) is Some
}

/// The 32 bytes that 64 hexadecimal digits write, two digits per byte, high digit first.
pub open spec fn hex_key_bytes(s: Seq<char>) -> Seq<u8> {
    Seq::new(
        32,
        |i: int| (hex_value(s[2 * i]).unwrap() * 16 + hex_value(s[2 * i + 1]).unwrap()) as u8,
    )
}

/// The bytes a key text gives: 64 hexadecimal digits are read as hex, any other text as
/// standard base64.
pub open spec fn key_text_bytes(s: Seq<char>) -> Option<Seq<u8>> {
    if is_hex_key(s) {
        Some(hex_key_bytes(s))
    } else {
        base64_standard_decoded(s)
    }
}

/// The decoded key of a snapshot (the variable trimmed, then decoded as hex or base64).
pub open spec fn key_bytes_of(env: EnvSnapshot) -> Option<Seq<u8>> {
    match env.token_encryption_key {
        Some(k) => key_text_bytes(trim(k@)),
        None => None,
    }
}

/// The first rule the snapshot breaks, checked in the order the settings are read.
pub open spec fn config_error_spec(env: EnvSnapshot) -> Option<ConfigErrorView> {
    if env.token_encryption_key is None {
        Some(ConfigErrorView::Missing(EnvVar::TokenEncryptionKey))
    } else if key_bytes_of(env) is None {
        Some(ConfigErrorView::InvalidKeyEncoding)
    } else if key_bytes_of(env).unwrap().len() != 32 {
        Some(ConfigErrorView::InvalidKeyLength)
    } else if env.public_base_url is None {
        Some(ConfigErrorView::Missing(EnvVar::PublicBaseUrl))
    } else if mode_of(env) is Err {
        Some(ConfigErrorView::InvalidTelegramMode(mode_of(env)->Err_0))
    } else if webhook_secret_spec(mode_of(env)->Ok_0, opt_view(env.telegram_webhook_secret)) is Err {
        Some(webhook_secret_spec(mode_of(env)->Ok_0, opt_view(env.telegram_webhook_secret))->Err_0)
    } else if u64_setting(opt_view(env.job_scratch_min_free_mb), 512) is None {
        Some(ConfigErrorView::InvalidNumber(EnvVar::JobScratchMinFreeMb))
    } else if u64_setting(opt_view(env.job_scratch_resume_free_mb), 1024) is None {
        Some(ConfigErrorView::InvalidNumber(EnvVar::JobScratchResumeFreeMb))
    } else if u64_setting(opt_view(env.max_file_bytes), DEFAULT_MAX_FILE_BYTES) is None {
        Some(ConfigErrorView::InvalidNumber(EnvVar::MaxFileBytes))
    } else if u64_setting(opt_view(env.max_file_bytes), DEFAULT_MAX_FILE_BYTES) == Some(0u64) {
        Some(ConfigErrorView::ZeroMaxFileBytes)
    } else if u64_setting(opt_view(env.drive_upload_chunk_bytes), DEFAULT_UPLOAD_CHUNK_BYTES)
        is None {
        Some(ConfigErrorView::InvalidNumber(EnvVar::DriveUploadChunkBytes))
    } else if chunk_check(
        u64_setting(opt_view(env.drive_upload_chunk_bytes), DEFAULT_UPLOAD_CHUNK_BYTES).unwrap(),
    ) is Err {
        Some(
            ConfigErrorView::InvalidChunkSize(
                chunk_check(
                    u64_setting(
                        opt_view(env.drive_upload_chunk_bytes),
                        DEFAULT_UPLOAD_CHUNK_BYTES,
                    ).unwrap(),
                )->Err_0,
            ),
        )
    } else if env.telegram_bot_token is None {
        Some(ConfigErrorView::Missing(EnvVar::TelegramBotToken))
    } else if env.super_admin_telegram_id is None {
        Some(ConfigErrorView::Missing(EnvVar::SuperAdminTelegramId))
    } else if parse_i64_spec(env.super_admin_telegram_id.unwrap()@) is None {
        Some(ConfigErrorView::InvalidAdminId)
    } else if env.google_client_id is None {
        Some(ConfigErrorView::Missing(EnvVar::GoogleClientId))
    } else if env.google_client_secret is None {
        Some(ConfigErrorView::Missing(EnvVar::GoogleClientSecret))
    } else if env.database_url is None {
        Some(ConfigErrorView::Missing(EnvVar::DatabaseUrl))
    } else if parse_usize_spec(
        match env.max_playlist_items {
            Some(v) => v@,
            None => "25"@,
        },
    ) is Err {
        Some(ConfigErrorView::InvalidCount(EnvVar::MaxPlaylistItems, parse_usize_spec(
            match env.max_playlist_items {
                Some(v) => v@,
                None => "25"@,
            },
        )->Err_0))
    } else if parse_usize_spec(
        match env.max_concurrent_jobs {
            Some(v) => v@,
            None => "4"@,
        },
    ) is Err {
        Some(ConfigErrorView::InvalidCount(EnvVar::MaxConcurrentJobs, parse_usize_spec(
            match env.max_concurrent_jobs {
                Some(v) => v@,
                None => "4"@,
            },
        )->Err_0))
    } else {
        None
    }
}

/// The fields of an accepted configuration, each from its variable or its default.
pub open spec fn config_fields_spec(env: EnvSnapshot, c: Config) -> bool {
    &&& c.token_encryption_key@ == key_bytes_of(env).unwrap()
    &&& c.public_base_url@ == {
        let u = env.public_base_url.unwrap()@;
        u.take(u.len() - trail_count(u, '/'))
    }
    &&& c.telegram_mode == mode_of(env)->Ok_0
    &&& opt_view(c.telegram_webhook_secret) == webhook_secret_spec(
        c.telegram_mode,
        opt_view(env.telegram_webhook_secret),
    )->Ok_0
    &&& c.scratch_thresholds == thresholds_spec(
        u64_setting(opt_view(env.job_scratch_min_free_mb), 512).unwrap(),
        u64_setting(opt_view(env.job_scratch_resume_free_mb), 1024).unwrap(),
    )
    &&& c.max_file_bytes == u64_setting(opt_view(env.max_file_bytes), DEFAULT_MAX_FILE_BYTES).unwrap()
    &&& c.drive_upload_chunk_bytes == u64_setting(
        opt_view(env.drive_upload_chunk_bytes),
        DEFAULT_UPLOAD_CHUNK_BYTES,
    ).unwrap()
    &&& c.telegram_bot_token@ == env.telegram_bot_token.unwrap()@
    &&& c.super_admin_telegram_id == parse_i64_spec(env.super_admin_telegram_id.unwrap()@).unwrap()
    &&& c.google_client_id@ == env.google_client_id.unwrap()@
    &&& c.google_client_secret@ == env.google_client_secret.unwrap()@
    &&& c.database_url@ == env.database_url.unwrap()@
    &&& c.http_bind@ == match env.http_bind {
        Some(v) => v@,
        None => "0.0.0.0:8080"@,
    }
    &&& c.max_playlist_items == parse_usize_spec(
        match env.max_playlist_items {
            Some(v) => v@,
            None => "25"@,
        },
    )->Ok_0
    &&& c.max_concurrent_jobs == parse_usize_spec(
        match env.max_concurrent_jobs {
            Some(v) => v@,
            None => "4"@,
        },
    )->Ok_0
}

/// Removing every trailing `c` leaves no trailing `c`.
proof fn lemma_trailing_removed(u: Seq<char>, c: char)
    ensures
        trail_count(u, c) <= u.len(),
        u.len() - trail_count(u, c) > 0 ==> u.take(u.len() - trail_count(u, c)).last() != c,
    decreases u.len(),
{
    if u.len() > 0 && u.last() == c {
        lemma_trailing_removed(u.drop_last(), c);
        assert(u.drop_last().take(u.drop_last().len() - trail_count(u.drop_last(), c)) =~= u.take(
            u.len() - trail_count(u, c),
        ));
    }
}

/// An accepted configuration is consistent: a 32-byte key, a base URL without a
/// trailing `/`, a valid webhook secret exactly in webhook mode, a positive file-size
/// limit, a chunk size Drive accepts, and a resume threshold above the pause threshold
/// (unless the pause threshold is the largest value).
pub proof fn lemma_accepted_config_is_consistent(env: EnvSnapshot, c: Config)
    requires
        config_error_spec(env) is None,
        config_fields_spec(env, c),
    ensures
        c.token_encryption_key@.len() == 32,
        c.public_base_url@.len() > 0 ==> c.public_base_url@.last() != '/',
        c.telegram_mode == TelegramMode::Webhook <==> c.telegram_webhook_secret is Some,
        match c.telegram_webhook_secret {
            Some(s) => valid_webhook_secret(s@),
            None => true,
        },
        c.max_file_bytes > 0,
        chunk_check(c.drive_upload_chunk_bytes) is Ok,
        c.scratch_thresholds.min_free_bytes < u64::MAX ==> c.scratch_thresholds.resume_free_bytes
            > c.scratch_thresholds.min_free_bytes,
{
    let u = env.public_base_url.unwrap()@;
    lemma_trailing_removed(u, '/');
    crate::scratch_disk::lemma_resume_above_min(
        u64_setting(opt_view(env.job_scratch_min_free_mb), 512).unwrap(),
        u64_setting(opt_view(env.job_scratch_resume_free_mb), 1024).unwrap(),
    );
}

// ---------------------------------------------------------------------------
// Executable pieces
// ---------------------------------------------------------------------------

/// Parses `TELEGRAM_MODE`.
pub fn parse_telegram_mode(raw: Option<&str>) -> (res: Result<TelegramMode, String>)
    ensures
        match res {
            Ok(m) => telegram_mode_spec(crate::filename::opt_str_view(raw)) == Ok::<
                TelegramMode,
                Seq<char>,
            >(m),
            Err(e) => telegram_mode_spec(crate::filename::opt_str_view(raw)) == Err::<
                TelegramMode,
                Seq<char>,
            >(e@),
        },
{
    let text = match raw {
        Some(r) => chars_of(r),
        None => Vec::new(),
    };
    let low = to_ascii_lowercase(text.as_slice());
    proof {
        assert(text@ == (match crate::filename::opt_str_view(raw) {
            Some(r) => r,
            None => Seq::<char>::empty(),
        }));
    }
    let polling = chars_of("polling");
    let webhook = chars_of("webhook");
    if low.len() == 0 || crate::text::chars_eq(low.as_slice(), polling.as_slice()) {
        Ok(TelegramMode::Polling)
    } else if crate::text::chars_eq(low.as_slice(), webhook.as_slice()) {
        Ok(TelegramMode::Webhook)
    } else {
        Err(string_from_chars(low.as_slice()))
    }
}

/// Checks the webhook secret characters.
fn secret_is_valid(s: &[char]) -> (res: bool)
    ensures
        res == valid_webhook_secret(s@),
{
    if s.len() == 0 || s.len() > 256 {
        return false;
    }
    let mut i: usize = 0;
    while i < s.len()
        invariant
            i <= s@.len(),
            forall|j: int| 0 <= j < i ==> secret_char(#[trigger] s@[j]),
        decreases s@.len() - i,
    {
        let c = s[i];
        let ok = ('0' <= c && c <= '9') || ('A' <= c && c <= 'Z') || ('a' <= c && c <= 'z') || c
            == '_' || c == '-';
        if !ok {
            assert(!secret_char(s@[i as int]));
            return false;
        }
        i = i + 1;
    }
    true
}

/// The webhook secret for `mode`, from the raw `TELEGRAM_WEBHOOK_SECRET`.
pub fn parse_webhook_secret(mode: TelegramMode, raw: Option<&str>) -> (res: Result<
    Option<String>,
    ConfigError,
>)
    ensures
        match res {
            Ok(s) => webhook_secret_spec(mode, crate::filename::opt_str_view(raw)) == Ok::<
                Option<Seq<char>>,
                ConfigErrorView,
            >(opt_view(s)),
            Err(e) => webhook_secret_spec(mode, crate::filename::opt_str_view(raw)) == Err::<
                Option<Seq<char>>,
                ConfigErrorView,
            >(e@),
        },
{
    match mode {
        TelegramMode::Polling => Ok(None),
        TelegramMode::Webhook => {
            let s = match raw {
                Some(r) => chars_of(r),
                None => Vec::new(),
            };
            if s.len() == 0 {
                return Err(ConfigError::MissingWebhookSecret);
            }
            if !secret_is_valid(s.as_slice()) {
                return Err(ConfigError::InvalidWebhookSecret);
            }
            Ok(Some(string_from_chars(s.as_slice())))
        },
    }
}

/// An optional unsigned number setting.
fn u64_setting_exec(raw: &Option<String>, default: u64) -> (res: Option<u64>)
    ensures
        res == u64_setting(opt_view(*raw), default),
{
    match raw {
        None => Some(default),
        Some(r) => parse_u64(chars_of(r.as_str()).as_slice()),
    }
}

/// Parses a `usize` the way `usize::from_str` does, with the kind of error.
pub fn parse_usize(s: &str) -> (res: Result<usize, IntErrorKind>)
    ensures
        res == parse_usize_spec(s@),
{
    let cs = chars_of(s);
    if cs.len() == 0 {
        return Err(IntErrorKind::Empty);
    }
    if cs.len() == 1 && (cs[0] == '+' || cs[0] == '-') {
        assert(s@ =~= seq![cs@[0]]);
        return Err(IntErrorKind::InvalidDigit);
    }
    assert(!(s@ =~= seq!['+']) && !(s@ =~= seq!['-']));
    let start: usize = if cs[0] == '+' {
        1
    } else {
        0
    };
    let ghost ds = s@.skip(start as int);
    assert(ds =~= (if s@[0] == '+' {
        s@.drop_first()
    } else {
        s@
    }));
    let mut acc: usize = 0;
    let mut i: usize = start;
    while i < cs.len()
        invariant
            cs@ == s@,
            start <= i <= s@.len(),
            ds == s@.skip(start as int),
            parse_usize_spec(s@) == parse_usize_digits(ds),
            all_digits(ds.take(i - start)),
            acc == digits_value(ds.take(i - start)),
        decreases s@.len() - i,
    {
        let c = cs[i];
        if !('0' <= c && c <= '9') {
            proof {
                assert(ds[i - start] == c);
                assert(!all_digits(ds));
                assert forall|j: int| 0 <= j <= ds.len() && all_digits(#[trigger] ds.take(j))
                    implies digits_value(ds.take(j)) <= usize::MAX by {
                    if j > i - start {
                        assert(ds.take(j)[i - start] == c);
                    } else {
                        lemma_digits_value_prefix(ds.take(i - start), j);
                        assert(ds.take(i - start).take(j) =~= ds.take(j));
                    }
                }
            }
            return Err(IntErrorKind::InvalidDigit);
        }
        let d: usize = ((c as u32) - 48) as usize;
        assert(ds.take(i + 1 - start).drop_last() =~= ds.take(i - start));
        assert(ds.take(i + 1 - start).last() == c);
        assert forall|j: int| 0 <= j < i + 1 - start implies is_digit(
            #[trigger] ds.take(i + 1 - start)[j],
        ) by {
            if j < i - start {
                assert(ds.take(i + 1 - start)[j] == ds.take(i - start)[j]);
            }
        }
        if acc > (usize::MAX - d) / 10 {
            proof {
                assert(digits_value(ds.take(i + 1 - start)) > usize::MAX) by (nonlinear_arith)
                    requires
                        acc > (usize::MAX - d) / 10,
                        digits_value(ds.take(i + 1 - start)) == acc * 10 + d,
                        d <= 9,
                ;
                assert(all_digits(ds.take(i + 1 - start)));
            }
            return Err(IntErrorKind::PosOverflow);
        }
        proof {
            assert(acc * 10 + d <= usize::MAX) by (nonlinear_arith)
                requires
                    acc <= (usize::MAX - d) / 10,
                    d <= 9,
            ;
        }
        acc = acc * 10 + d;
        i = i + 1;
    }
    proof {
        assert(ds.take(s@.len() - start) =~= ds);
        assert forall|j: int| 0 <= j <= ds.len() && all_digits(#[trigger] ds.take(j))
            implies digits_value(ds.take(j)) <= usize::MAX by {
            lemma_digits_value_prefix(ds, j);
        }
    }
    Ok(acc)
}

/// A required text setting.
fn required(raw: &Option<String>, var: EnvVar) -> (res: Result<String, ConfigError>)
    ensures
        match res {
            Ok(s) => raw.is_some() && s@ == raw.unwrap()@,
            Err(e) => raw.is_none() && e@ == ConfigErrorView::Missing(var),
        },
{
    match raw {
        Some(s) => Ok(s.clone()),
        None => Err(ConfigError::Missing(var)),
    }
}

/// The value of a hexadecimal digit.
fn hex_digit(c: char) -> (res: Option<u8>)
    ensures
        res == hex_value(c),
{
    if '0' <= c && c <= '9' {
        Some(((c as u32) - ('0' as u32)) as u8)
    } else if 'a' <= c && c <= 'f' {
        Some(((c as u32) - ('a' as u32) + 10) as u8)
    } else if 'A' <= c && c <= 'F' {
        Some(((c as u32) - ('A' as u32) + 10) as u8)
    } else {
        None
    }
}

/// Reads exactly 64 hexadecimal digits as 32 bytes; `None` for any other text.
fn decode_hex_key(s: &[char]) -> (res: Option<Vec<u8>>)
    ensures
        match res {
            Some(v) => is_hex_key(s@) && v@ == hex_key_bytes(s@),
            None => !is_hex_key(s@),
        },
{
    if s.len() != 64 {
        return None;
    }
    let mut out: Vec<u8> = Vec::new();
    let mut i: usize = 0;
    while i < 32
        invariant
            s@.len() == 64,
            i <= 32,
            out@.len() == i,
            forall|j: int| 0 <= j < 2 * i ==> (#[trigger] hex_value(s@[j])) is Some,
            forall|j: int| 0 <= j < i ==> out@[j] == hex_key_bytes(s@)[j],
        decreases 32 - i,
    {
        let hi = match hex_digit(s[2 * i]) {
            Some(h) => h,
            None => {
                assert(!(hex_value(s@[2 * i as int]) is Some));
                return None;
            },
        };
        let lo = match hex_digit(s[2 * i + 1]) {
            Some(l) => l,
            None => {
                assert(!(hex_value(s@[2 * i + 1]) is Some));
                return None;
            },
        };
        assert(hi < 16 && lo < 16);
        out.push(hi * 16 + lo);
        i = i + 1;
    }
    assert(out@ =~= hex_key_bytes(s@));
    Some(out)
}

/// Decodes a key text: 64 hexadecimal digits as hex, any other text as standard base64.
fn decode_key_text(s: &str) -> (res: Option<Vec<u8>>)
    ensures
        match res {
            Some(v) => key_text_bytes(s@) == Some(v@),
            None => key_text_bytes(s@) is None,
        },
{
    let chars = chars_of(s);
    match decode_hex_key(chars.as_slice()) {
        Some(v) => Some(v),
        None => base64_decode(s),
    }
}

/// The encryption key from the decoded key text (`None` when the text did not decode):
/// exactly 32 bytes are required.
pub fn encryption_key_from(decoded: Option<Vec<u8>>) -> (res: Result<[u8; 32], ConfigError>)
    ensures
        match decoded {
            None => res matches Err(e) && e@ == ConfigErrorView::InvalidKeyEncoding,
            Some(b) => if b@.len() == 32 {
                res matches Ok(k) && k@ == b@
            } else {
                res matches Err(e) && e@ == ConfigErrorView::InvalidKeyLength
            },
        },
{
    match decoded {
        None => Err(ConfigError::InvalidKeyEncoding),
        Some(b) => {
            if b.len() != 32 {
                Err(ConfigError::InvalidKeyLength)
            } else {
                Ok(key_from_bytes(&b))
            }
        },
    }
}

/// Copies 32 decoded bytes into a key.
fn key_from_bytes(bytes: &Vec<u8>) -> (res: [u8; 32])
    requires
        bytes@.len() == 32,
    ensures
        res@ == bytes@,
{
    let mut key = [0u8; 32];
    let mut i: usize = 0;
    while i < 32
        invariant
            bytes@.len() == 32,
            i <= 32,
            key@.len() == 32,
            forall|j: int| 0 <= j < i ==> key@[j] == bytes@[j],
        decreases 32 - i,
    {
        key[i] = bytes[i];
        i = i + 1;
    }
    assert(key@ =~= bytes@);
    key
}

impl Config {
    /// Validates the settings of `env` into a configuration; on failure, the first rule
    /// broken, in the order the settings are read.
    pub fn from_env_values(env: &EnvSnapshot) -> (res: Result<Config, ConfigError>)
        ensures
            match res {
                Ok(c) => config_error_spec(*env) is None && config_fields_spec(*env, c),
                Err(e) => config_error_spec(*env) == Some(e@),
            },
    {
        proof {
            reveal_strlit("25");
            reveal_strlit("4");
            reveal_strlit("0.0.0.0:8080");
        }
        let key_raw = required(&env.token_encryption_key, EnvVar::TokenEncryptionKey)?;
        let key_trimmed = string_from_chars(trim_chars(chars_of(key_raw.as_str()).as_slice()).as_slice());
        let token_encryption_key = encryption_key_from(decode_key_text(key_trimmed.as_str()))?;
        let base_raw = required(&env.public_base_url, EnvVar::PublicBaseUrl)?;
        let base_chars = chars_of(base_raw.as_str());
        let base_trimmed = strip_trailing_slashes(base_chars.as_slice());
        let public_base_url = string_from_chars(base_trimmed.as_slice());
        let mode_raw: Option<&str> = match &env.telegram_mode {
            Some(s) => Some(s.as_str()),
            None => None,
        };
        let telegram_mode = match parse_telegram_mode(mode_raw) {
            Ok(m) => m,
            Err(low) => {
                return Err(ConfigError::InvalidTelegramMode(low));
            },
        };
        let secret_raw: Option<&str> = match &env.telegram_webhook_secret {
            Some(s) => Some(s.as_str()),
            None => None,
        };
        let telegram_webhook_secret = parse_webhook_secret(telegram_mode, secret_raw)?;
        let min_mb = match u64_setting_exec(&env.job_scratch_min_free_mb, 512) {
            Some(v) => v,
            None => {
                return Err(ConfigError::InvalidNumber(EnvVar::JobScratchMinFreeMb));
            },
        };
        let resume_mb = match u64_setting_exec(&env.job_scratch_resume_free_mb, 1024) {
            Some(v) => v,
            None => {
                return Err(ConfigError::InvalidNumber(EnvVar::JobScratchResumeFreeMb));
            },
        };
        let scratch_thresholds = parse_scratch_thresholds_mb(min_mb, resume_mb);
        let max_file_bytes = match u64_setting_exec(&env.max_file_bytes, DEFAULT_MAX_FILE_BYTES) {
            Some(v) => v,
            None => {
                return Err(ConfigError::InvalidNumber(EnvVar::MaxFileBytes));
            },
        };
        if max_file_bytes == 0 {
            return Err(ConfigError::ZeroMaxFileBytes);
        }
        let drive_upload_chunk_bytes = match u64_setting_exec(
            &env.drive_upload_chunk_bytes,
            DEFAULT_UPLOAD_CHUNK_BYTES,
        ) {
            Some(v) => v,
            None => {
                return Err(ConfigError::InvalidNumber(EnvVar::DriveUploadChunkBytes));
            },
        };
        match validate_upload_chunk_bytes(drive_upload_chunk_bytes) {
            Ok(_) => {},
            Err(e) => {
                return Err(ConfigError::InvalidChunkSize(e));
            },
        }
        let telegram_bot_token = required(&env.telegram_bot_token, EnvVar::TelegramBotToken)?;
        let admin_raw = required(&env.super_admin_telegram_id, EnvVar::SuperAdminTelegramId)?;
        let super_admin_telegram_id = match parse_i64(chars_of(admin_raw.as_str()).as_slice()) {
            Some(v) => v,
            None => {
                return Err(ConfigError::InvalidAdminId);
            },
        };
        let google_client_id = required(&env.google_client_id, EnvVar::GoogleClientId)?;
        let google_client_secret = required(&env.google_client_secret, EnvVar::GoogleClientSecret)?;
        let database_url = required(&env.database_url, EnvVar::DatabaseUrl)?;
        let http_bind = match &env.http_bind {
            Some(v) => v.clone(),
            None => "0.0.0.0:8080".to_owned(),
        };
        let playlist_raw = match &env.max_playlist_items {
            Some(v) => v.clone(),
            None => "25".to_owned(),
        };
        let max_playlist_items = match parse_usize(playlist_raw.as_str()) {
            Ok(v) => v,
            Err(k) => {
                return Err(ConfigError::InvalidCount(EnvVar::MaxPlaylistItems, k));
            },
        };
        let jobs_raw = match &env.max_concurrent_jobs {
            Some(v) => v.clone(),
            None => "4".to_owned(),
        };
        let max_concurrent_jobs = match parse_usize(jobs_raw.as_str()) {
            Ok(v) => v,
            Err(k) => {
                return Err(ConfigError::InvalidCount(EnvVar::MaxConcurrentJobs, k));
            },
        };
        Ok(
            Config {
                telegram_bot_token,
                super_admin_telegram_id,
                google_client_id,
                google_client_secret,
                public_base_url,
                token_encryption_key,
                database_url,
                http_bind,
                max_playlist_items,
                max_concurrent_jobs,
                telegram_mode,
                telegram_webhook_secret,
                scratch_thresholds,
                max_file_bytes,
                drive_upload_chunk_bytes,
            },
        )
    }
}

/// `s` without its trailing `/` characters (`str::trim_end_matches('/')`).
fn strip_trailing_slashes(s: &[char]) -> (res: Vec<char>)
    ensures
        res@ == s@.take(s@.len() - trail_count(s@, '/')),
{
    let mut end: usize = s.len();
    assert(s@.take(s@.len() as int) =~= s@);
    while end > 0 && s[end - 1] == '/'
        invariant
            end <= s@.len(),
            trail_count(s@, '/') == (s@.len() - end) + trail_count(s@.take(end as int), '/'),
        decreases end,
    {
        assert(s@.take(end as int).drop_last() =~= s@.take(end - 1));
        end = end - 1;
    }
    assert(trail_count(s@.take(end as int), '/') == 0);
    crate::text::slice_to_vec(s, 0, end)
}

/// Whether `user_id` is the configured super-admin.
pub fn is_super_admin(user_id: i64, config: &Config) -> (res: bool)
    ensures
        res == (user_id == config.super_admin_telegram_id),
{
    user_id == config.super_admin_telegram_id
}

} // verus!
