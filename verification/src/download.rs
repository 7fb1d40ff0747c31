//! Byte limits of downloads: the announced size is checked before a download starts,
//! and the running total while it streams.
use vstd::prelude::*;
use crate::text::{chars_of, decimal, push_decimal, push_str, string_from_chars};

verus! {

/// Counts the bytes of a download against its limit; the count never exceeds the
/// limit.
pub struct DownloadBudget {
    downloaded: u64,
    max_bytes: u64,
}

impl DownloadBudget {
    /// The bytes accepted so far.
    pub closed spec fn downloaded_spec(&self) -> nat {
        self.downloaded as nat
    }

    /// The limit.
    pub closed spec fn max_spec(&self) -> nat {
        self.max_bytes as nat
    }

    #[verifier::type_invariant]
    closed spec fn within_limit(&self) -> bool {
        self.downloaded <= self.max_bytes
    }

    /// A budget of `max_bytes` with nothing downloaded.
    pub fn new(max_bytes: u64) -> (res: Self)
        ensures
            res.downloaded_spec() == 0,
            res.max_spec() == max_bytes,
    {
        DownloadBudget { downloaded: 0, max_bytes }
    }

    /// The bytes accepted so far.
    pub fn downloaded(&self) -> (res: u64)
        ensures
            res == self.downloaded_spec(),
            res <= self.max_spec(),
    {
        proof {
            use_type_invariant(self);
        }
        self.downloaded
    }

    /// Counts a chunk of `len` bytes; refuses it, and counts nothing, when the total
    /// would pass the limit.
    pub fn add(&mut self, len: u64) -> (res: bool)
        ensures
            final(self).max_spec() == old(self).max_spec(),
            res == (old(self).downloaded_spec() + len <= old(self).max_spec()),
            res ==> final(self).downloaded_spec() == old(self).downloaded_spec() + len,
            !res ==> final(self).downloaded_spec() == old(self).downloaded_spec(),
            final(self).downloaded_spec() <= final(self).max_spec(),
    {
        proof {
            use_type_invariant(&*self);
        }
        if len <= self.max_bytes - self.downloaded {
            self.downloaded = self.downloaded + len;
            true
        } else {
            false
        }
    }
}

/// The refusal of an HTTP download whose announced length is over the limit.
pub open spec fn remote_too_large_text(len: u64, max: u64) -> Seq<char> {
    "remote file size "@ + decimal(len as nat) + " exceeds limit "@ + decimal(max as nat)
}

/// Checks the announced `Content-Length` of an HTTP download; unknown lengths pass.
pub fn check_content_length(len: Option<u64>, max_bytes: u64) -> (res: Result<(), String>)
    ensures
        match res {
            Ok(_) => match len {
                Some(l) => l <= max_bytes,
                None => true,
            },
            Err(m) => len matches Some(l) && l > max_bytes && m@ == remote_too_large_text(
                l,
                max_bytes,
            ),
        },
{
    match len {
        Some(l) => if l <= max_bytes {
            Ok(())
        } else {
            let mut out = chars_of("remote file size ");
            push_decimal(&mut out, l);
            push_str(&mut out, " exceeds limit ");
            push_decimal(&mut out, max_bytes);
            Err(string_from_chars(out.as_slice()))
        },
        None => Ok(()),
    }
}

/// The error when an HTTP download streams past its limit.
pub fn http_over_limit_message(max_bytes: u64) -> (res: String)
    ensures
        res@ == "download exceeded size limit "@ + decimal(max_bytes as nat),
{
    let mut out = chars_of("download exceeded size limit ");
    push_decimal(&mut out, max_bytes);
    string_from_chars(out.as_slice())
}

/// The refusal of a Telegram file whose size is over the limit.
pub open spec fn telegram_too_large_text(size: u64, max: u64) -> Seq<char> {
    "telegram file size "@ + decimal(size as nat) + " exceeds limit "@ + decimal(max as nat)
}

/// Checks the size Telegram reports for a file.
pub fn check_telegram_size(size: u64, max_bytes: u64) -> (res: Result<(), String>)
    ensures
        match res {
            Ok(_) => size <= max_bytes,
            Err(m) => size > max_bytes && m@ == telegram_too_large_text(size, max_bytes),
        },
{
    if size <= max_bytes {
        Ok(())
    } else {
        let mut out = chars_of("telegram file size ");
        push_decimal(&mut out, size);
        push_str(&mut out, " exceeds limit ");
        push_decimal(&mut out, max_bytes);
        Err(string_from_chars(out.as_slice()))
    }
}

/// The error when a Telegram download streams past its limit.
pub fn telegram_over_limit_message(max_bytes: u64) -> (res: String)
    ensures
        res@ == "telegram download exceeded limit "@ + decimal(max_bytes as nat),
{
    let mut out = chars_of("telegram download exceeded limit ");
    push_decimal(&mut out, max_bytes);
    string_from_chars(out.as_slice())
}

// ---------------------------------------------------------------------------
// Retrying a direct download
// ---------------------------------------------------------------------------

/// What follows an attempt at a direct download.
#[derive(Debug, Clone, Copy, PartialEq, Eq, Structural)]
pub enum DirectStep {
    /// The file was fetched.
    Done,
    /// Try once more.
    Retry,
    /// Give up with the last error.
    Fail,
}

/// How many times a direct download is attempted: once, and once more after a failure.
pub const DIRECT_ATTEMPTS: u32 = 2;

/// The step after attempt number `attempt` (counted from 1): done when it succeeded,
/// another try after a failed first attempt, and failure after a failed second one.
pub fn direct_attempt_step(attempt: u32, succeeded: bool) -> (res: DirectStep)
    ensures
        res == if succeeded {
            DirectStep::Done
        } else if attempt < DIRECT_ATTEMPTS {
            DirectStep::Retry
        } else {
            DirectStep::Fail
        },
{
    if succeeded {
        DirectStep::Done
    } else if attempt < DIRECT_ATTEMPTS {
        DirectStep::Retry
    } else {
        DirectStep::Fail
    }
}

/// The error when the retry fails too, naming the first failure.
pub fn retry_failed_message(first: &str) -> (res: String)
    ensures
        res@ == "retry failed after: "@ + first@,
{
    let mut out = chars_of("retry failed after: ");
    push_str(&mut out, first);
    string_from_chars(out.as_slice())
}

} // verus!
