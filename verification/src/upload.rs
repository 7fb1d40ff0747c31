//! Limits for Google Drive uploads and the decisions of the resumable-upload protocol.
use vstd::prelude::*;
use crate::commands::{after_first, before_first, split_first};
use crate::text::{
    chars_of, decimal, has_prefix, parse_u64, parse_u64_spec, push_decimal, push_str, slice_to_vec,
    starts_with_chars, string_from_chars,
};

verus! {

/// Default cap on a file's size: 2 GiB.
pub const DEFAULT_MAX_FILE_BYTES: u64 = 2147483648;

/// Default resumable-upload chunk: 16 MiB.
pub const DEFAULT_UPLOAD_CHUNK_BYTES: u64 = 16777216;

/// Drive's chunk granularity: 256 KiB.
pub const MIN_CHUNK: u64 = 262144;

/// Why a chunk size was refused.
#[derive(Debug, Clone, Copy, PartialEq, Eq, Structural)]
pub enum ChunkSizeError {
    /// Smaller than 256 KiB.
    BelowMinimum,
    /// Not a multiple of 256 KiB.
    NotMultiple,
}

impl ChunkSizeError {
    /// The text of the error.
    pub open spec fn message_spec(self) -> Seq<char> {
        match self {
            ChunkSizeError::BelowMinimum => "DRIVE_UPLOAD_CHUNK_BYTES must be at least "@ + decimal(
                MIN_CHUNK as nat,
            ),
            ChunkSizeError::NotMultiple => "DRIVE_UPLOAD_CHUNK_BYTES must be a multiple of "@
                + decimal(MIN_CHUNK as nat),
        }
    }

    /// The text of the error.
    pub fn message(&self) -> (res: String)
        ensures
            res@ == self.message_spec(),
    {
        let mut out = match self {
            ChunkSizeError::BelowMinimum => chars_of("DRIVE_UPLOAD_CHUNK_BYTES must be at least "),
            ChunkSizeError::NotMultiple => chars_of(
                "DRIVE_UPLOAD_CHUNK_BYTES must be a multiple of ",
            ),
        };
        push_decimal(&mut out, MIN_CHUNK);
        string_from_chars(out.as_slice())
    }
}

/// The verdict on a chunk size: at least 256 KiB and a multiple of it.
pub open spec fn chunk_check(chunk: u64) -> Result<u64, ChunkSizeError> {
    if chunk < MIN_CHUNK {
        Err(ChunkSizeError::BelowMinimum)
    } else if chunk % MIN_CHUNK != 0 {
        Err(ChunkSizeError::NotMultiple)
    } else {
        Ok(chunk)
    }
}

/// Accepts a resumable-upload chunk size that Drive allows.
pub fn validate_upload_chunk_bytes(chunk: u64) -> (res: Result<u64, ChunkSizeError>)
    ensures
        res == chunk_check(chunk),
{
    if chunk < MIN_CHUNK {
        return Err(ChunkSizeError::BelowMinimum);
    }
    if chunk % MIN_CHUNK != 0 {
        return Err(ChunkSizeError::NotMultiple);
    }
    Ok(chunk)
}

/// The default chunk size is accepted.
pub proof fn lemma_default_chunk_valid()
    ensures
        chunk_check(DEFAULT_UPLOAD_CHUNK_BYTES) == Ok::<u64, ChunkSizeError>(
            DEFAULT_UPLOAD_CHUNK_BYTES,
        ),
{
}

/// Every accepted chunk size is a positive multiple of 256 KiB.
pub proof fn lemma_accepted_chunk_is_multiple(chunk: u64)
    requires
        chunk_check(chunk) is Ok,
    ensures
        chunk >= MIN_CHUNK,
        chunk % MIN_CHUNK == 0,
{
}


// ---------------------------------------------------------------------------
// The resumable-upload protocol
// ---------------------------------------------------------------------------

/// The refusal of a file above the size limit.
pub open spec fn too_large_text(total: u64, max: u64) -> Seq<char> {
    "file size "@ + decimal(total as nat) + " exceeds file limit "@ + decimal(max as nat)
}

/// Refuses a file larger than the limit before any request is made.
pub fn check_upload_size(total: u64, max_file_bytes: u64) -> (res: Result<(), String>)
    ensures
        match res {
            Ok(_) => total <= max_file_bytes,
            Err(m) => total > max_file_bytes && m@ == too_large_text(total, max_file_bytes),
        },
{
    if total <= max_file_bytes {
        Ok(())
    } else {
        let mut out = chars_of("file size ");
        push_decimal(&mut out, total);
        push_str(&mut out, " exceeds file limit ");
        push_decimal(&mut out, max_file_bytes);
        Err(string_from_chars(out.as_slice()))
    }
}

/// The inclusive byte range of a chunk of `len` bytes read at `offset`.
pub fn chunk_range(offset: u64, len: u64) -> (res: (u64, u64))
    requires
        len > 0,
        offset + len <= u64::MAX,
    ensures
        res.0 == offset,
        res.1 == offset + len - 1,
{
    (offset, offset + len - 1)
}

/// The `Content-Range` value of a chunk.
pub open spec fn content_range_text(start: u64, end: u64, total: u64) -> Seq<char> {
    "bytes "@ + decimal(start as nat) + "-"@ + decimal(end as nat) + "/"@ + decimal(total as nat)
}

/// The `Content-Range` header of a chunk: `bytes <start>-<end>/<total>`.
pub fn content_range(start: u64, end: u64, total: u64) -> (res: String)
    ensures
        res@ == content_range_text(start, end, total),
{
    let mut out = chars_of("bytes ");
    push_decimal(&mut out, start);
    push_str(&mut out, "-");
    push_decimal(&mut out, end);
    push_str(&mut out, "/");
    push_decimal(&mut out, total);
    string_from_chars(out.as_slice())
}

/// The last byte a `Range: bytes=<start>-<end>` header confirms.
pub open spec fn range_end_spec(range: Seq<char>) -> Option<u64> {
    if has_prefix(range, "bytes="@) {
        match after_first(range.skip(6), '-') {
            Some(end) => parse_u64_spec(end),
            None => None,
        }
    } else {
        None
    }
}

/// Reads the end of the range the server has stored from its `Range` header.
pub fn parse_bytes_range_end(range: &str) -> (res: Option<u64>)
    ensures
        res == range_end_spec(range@),
{
    proof {
        reveal_strlit("bytes=");
    }
    let r = chars_of(range);
    let prefix = chars_of("bytes=");
    if !starts_with_chars(r.as_slice(), prefix.as_slice()) {
        return None;
    }
    let rest = slice_to_vec(r.as_slice(), 6, r.len());
    assert(rest@ =~= range@.skip(6));
    let (_, end) = split_first(rest.as_slice(), '-');
    match end {
        Some(e) => parse_u64(e.as_slice()),
        None => None,
    }
}

/// How many times a chunk is retried after a server error or throttling.
pub const CHUNK_PUT_RETRIES: u32 = 3;

/// What to do after the server answered a chunk.
#[derive(Debug, Clone, Copy, PartialEq, Eq, Structural)]
pub enum ChunkOutcome {
    /// The upload is complete; the response body names the file.
    Done,
    /// The server wants the bytes from this offset next.
    ResumeFrom(u64),
    /// Send the same chunk again as retry number `attempt`, after `delay_secs` seconds.
    Retry { attempt: u32, delay_secs: u64 },
    /// Give up; the response body explains.
    Fail,
}

/// The server-error or throttling statuses that are retried.
pub open spec fn retryable_status(status: u16) -> bool {
    (500 <= status <= 599) || status == 429
}

/// The answer to a chunk: success completes, 308 resumes after the stored range (after
/// the chunk when the header says nothing), server errors and 429 are retried up to
/// three times with waits of 2, 4 and 4 seconds, anything else fails.
pub open spec fn chunk_outcome_spec(status: u16, attempt: u32, range: Option<Seq<char>>, end: u64) -> ChunkOutcome {
    if 200 <= status <= 299 {
        ChunkOutcome::Done
    } else if status == 308 {
        ChunkOutcome::ResumeFrom(
            match range {
                Some(r) => match range_end_spec(r) {
                    Some(e) => (e + 1) as u64,
                    None => (end + 1) as u64,
                },
                None => (end + 1) as u64,
            },
        )
    } else if retryable_status(status) && attempt < CHUNK_PUT_RETRIES {
        ChunkOutcome::Retry {
            attempt: (attempt + 1) as u32,
            delay_secs: if attempt + 1 >= 2 {
                4
            } else {
                2
            },
        }
    } else {
        ChunkOutcome::Fail
    }
}

/// Decides what follows the server's answer to a chunk ending at byte `end`, after
/// `attempt` retries.
pub fn chunk_outcome(status: u16, attempt: u32, range: Option<&str>, end: u64) -> (res: ChunkOutcome)
    requires
        end < u64::MAX,
        match range {
            Some(r) => range_end_spec(r@) != Some(u64::MAX),
            None => true,
        },
    ensures
        res == chunk_outcome_spec(
            status,
            attempt,
            match range {
                Some(r) => Some(r@),
                None => None,
            },
            end,
        ),
{
    if 200 <= status && status <= 299 {
        return ChunkOutcome::Done;
    }
    if status == 308 {
        let next = match range {
            Some(r) => match parse_bytes_range_end(r) {
                Some(e) => e + 1,
                None => end + 1,
            },
            None => end + 1,
        };
        return ChunkOutcome::ResumeFrom(next);
    }
    let retryable = (500 <= status && status <= 599) || status == 429;
    if retryable && attempt < CHUNK_PUT_RETRIES {
        let next_attempt = attempt + 1;
        let shift: u32 = if next_attempt >= 2 {
            2
        } else {
            next_attempt
        };
        let delay: u64 = if shift == 2 {
            4
        } else {
            2
        };
        return ChunkOutcome::Retry { attempt: next_attempt, delay_secs: delay };
    }
    ChunkOutcome::Fail
}

/// The answer to a chunk: any 2xx completes the upload; any 5xx and 429 are retried,
/// three times at most, the first retry after 2 seconds and later ones after 4; a 308
/// asks for the next range; every other status gives up.
pub proof fn lemma_chunk_answers(status: u16, attempt: u32, range: Option<Seq<char>>, end: u64)
    ensures
        200 <= status <= 299 ==> chunk_outcome_spec(status, attempt, range, end)
            == ChunkOutcome::Done,
        status == 308 ==> chunk_outcome_spec(status, attempt, range, end) is ResumeFrom,
        ((500 <= status <= 599) || status == 429) && attempt < 3 ==> chunk_outcome_spec(
            status,
            attempt,
            range,
            end,
        ) == (ChunkOutcome::Retry {
            attempt: (attempt + 1) as u32,
            delay_secs: if attempt == 0 {
                2
            } else {
                4
            },
        }),
        ((500 <= status <= 599) || status == 429) && attempt >= 3 ==> chunk_outcome_spec(
            status,
            attempt,
            range,
            end,
        ) == ChunkOutcome::Fail,
        !(200 <= status <= 299) && status != 308 && !(500 <= status <= 599) && status != 429
            ==> chunk_outcome_spec(status, attempt, range, end) == ChunkOutcome::Fail,
        200 <= status <= 299 || status == 308 || !(chunk_outcome_spec(status, attempt, range, end) is Done),
{
}

/// A chunk is retried at most three times.
pub proof fn lemma_retries_bounded(status: u16, attempt: u32, range: Option<Seq<char>>, end: u64)
    requires
        chunk_outcome_spec(status, attempt, range, end) is Retry,
    ensures
        chunk_outcome_spec(status, attempt, range, end)->attempt <= CHUNK_PUT_RETRIES,
        chunk_outcome_spec(status, attempt, range, end)->attempt == attempt + 1,
{
}

/// The error when a read of the local file returns nothing before the end.
pub open spec fn stalled_text(offset: u64, total: u64) -> Seq<char> {
    "drive resumable upload stalled at offset "@ + decimal(offset as nat) + "/"@ + decimal(
        total as nat,
    )
}

/// The error when the local file ends before the upload does.
pub fn stalled_message(offset: u64, total: u64) -> (res: String)
    ensures
        res@ == stalled_text(offset, total),
{
    let mut out = chars_of("drive resumable upload stalled at offset ");
    push_decimal(&mut out, offset);
    push_str(&mut out, "/");
    push_decimal(&mut out, total);
    string_from_chars(out.as_slice())
}

/// Google Drive's files endpoint under an API base.
pub fn drive_files_url(api_base: &str) -> (res: String)
    ensures
        res@ == api_base@ + "/files"@,
{
    let mut out = chars_of(api_base);
    push_str(&mut out, "/files");
    string_from_chars(out.as_slice())
}

/// The endpoint of one Drive file or folder.
pub fn drive_file_url(api_base: &str, file_id: &str) -> (res: String)
    ensures
        res@ == api_base@ + "/files/"@ + file_id@,
{
    let mut out = chars_of(api_base);
    push_str(&mut out, "/files/");
    push_str(&mut out, file_id);
    string_from_chars(out.as_slice())
}

/// The request that opens a resumable upload session and asks for the file id back.
pub fn resumable_session_url(upload_base: &str) -> (res: String)
    ensures
        res@ == upload_base@ + "?uploadType=resumable&fields=id"@,
{
    let mut out = chars_of(upload_base);
    push_str(&mut out, "?uploadType=resumable&fields=id");
    string_from_chars(out.as_slice())
}

} // verus!
