//! Job identifiers as text, and the status lines the bot shows for a job.
use vstd::prelude::*;
use crate::job::JobStatus;
use crate::records::{job_status_from_text, parse_job_status};
use crate::text::{
    char_from_ascii, chars_of, digit_char, push_signed_decimal, push_str, signed_decimal,
    string_from_chars,
};

verus! {

// ---------------------------------------------------------------------------
// Hyphenated lowercase UUID text
// ---------------------------------------------------------------------------

/// The lowercase hexadecimal digit for `d < 16`.
pub open spec fn hex_lower(d: nat) -> char {
    if d < 10 {
        digit_char(d)
    } else {
        ((d - 10 + 97) as u32) as char
    }
}

/// Two lowercase hex digits for a byte, high nibble first.
pub open spec fn byte_hex(b: u8) -> Seq<char> {
    seq![hex_lower((b / 16) as nat), hex_lower((b % 16) as nat)]
}

/// The bytes of `bs` as lowercase hex, two digits each.
pub open spec fn bytes_hex(bs: Seq<u8>) -> Seq<char>
    decreases bs.len(),
{
    if bs.len() == 0 {
        Seq::empty()
    } else {
        bytes_hex(bs.drop_last()) + byte_hex(bs.last())
    }
}

/// The hyphenated form of a UUID's sixteen bytes (`8-4-4-4-12` hex digits), as
/// `uuid::Uuid`'s `Display` writes it.
pub open spec fn uuid_hyphenated(b: Seq<u8>) -> Seq<char> {
    bytes_hex(b.subrange(0, 4)) + seq!['-'] + bytes_hex(b.subrange(4, 6)) + seq!['-']
        + bytes_hex(b.subrange(6, 8)) + seq!['-'] + bytes_hex(b.subrange(8, 10)) + seq!['-']
        + bytes_hex(b.subrange(10, 16))
}

/// A job's short id: the first eight characters of its UUID text.
pub open spec fn short_id_spec(b: Seq<u8>) -> Seq<char> {
    uuid_hyphenated(b).take(8)
}

pub proof fn lemma_bytes_hex_len(bs: Seq<u8>)
    ensures
        bytes_hex(bs).len() == 2 * bs.len(),
    decreases bs.len(),
{
    if bs.len() > 0 {
        lemma_bytes_hex_len(bs.drop_last());
    }
}

/// The lowercase hex digit of a nibble.
fn hex_char(d: u8) -> (res: char)
    requires
        d < 16,
    ensures
        res == hex_lower(d as nat),
{
    if d < 10 {
        char_from_ascii((d as u32) + 48)
    } else {
        char_from_ascii((d as u32) - 10 + 97)
    }
}

/// Appends the hex digits of `b[from..to]`.
fn push_hex(out: &mut Vec<char>, b: &[u8; 16], from: usize, to: usize)
    requires
        from <= to <= 16,
    ensures
        final(out)@ == old(out)@ + bytes_hex(b@.subrange(from as int, to as int)),
{
    let mut i: usize = from;
    assert(b@.subrange(from as int, from as int) =~= Seq::<u8>::empty());
    while i < to
        invariant
            from <= i <= to <= 16,
            b@.len() == 16,
            out@ == old(out)@ + bytes_hex(b@.subrange(from as int, i as int)),
        decreases to - i,
    {
        let byte = b[i];
        let hi = hex_char(byte / 16);
        let lo = hex_char(byte % 16);
        out.push(hi);
        out.push(lo);
        proof {
            let s = b@.subrange(from as int, i + 1);
            assert(s.drop_last() =~= b@.subrange(from as int, i as int));
            assert(s.last() == byte);
        }
        assert(out@ =~= old(out)@ + bytes_hex(b@.subrange(from as int, i + 1)));
        i = i + 1;
    }
}

/// The hyphenated lowercase text of a UUID given by its bytes.
pub fn uuid_text(b: &[u8; 16]) -> (res: String)
    ensures
        res@ == uuid_hyphenated(b@),
{
    let mut out: Vec<char> = Vec::new();
    push_hex(&mut out, b, 0, 4);
    out.push('-');
    push_hex(&mut out, b, 4, 6);
    out.push('-');
    push_hex(&mut out, b, 6, 8);
    out.push('-');
    push_hex(&mut out, b, 8, 10);
    out.push('-');
    push_hex(&mut out, b, 10, 16);
    assert(out@ =~= uuid_hyphenated(b@));
    crate::text::string_from_chars(out.as_slice())
}

/// The first eight characters of a job's UUID text.
pub fn short_id(b: &[u8; 16]) -> (res: String)
    ensures
        res@ == short_id_spec(b@),
        res@ == bytes_hex(b@.subrange(0, 4)),
{
    let mut out: Vec<char> = Vec::new();
    push_hex(&mut out, b, 0, 4);
    proof {
        lemma_bytes_hex_len(b@.subrange(0, 4));
        assert(out@ =~= bytes_hex(b@.subrange(0, 4)));
        assert(uuid_hyphenated(b@).take(8) =~= bytes_hex(b@.subrange(0, 4)));
    }
    crate::text::string_from_chars(out.as_slice())
}

/// The short form of a user's id shown in logs and replies; the same eight characters
/// as a job's short id.
pub fn short_user_id(b: &[u8; 16]) -> (res: String)
    ensures
        res@ == short_id_spec(b@),
{
    short_id(b)
}

// ---------------------------------------------------------------------------
// Status messages
// ---------------------------------------------------------------------------

/// What the status messages read of a stored job.
#[derive(Debug, Clone)]
pub struct JobSummary {
    /// The job's UUID bytes.
    pub id: [u8; 16],
    /// The stored status name.
    pub status: String,
    pub progress_current: i32,
    pub progress_total: i32,
    pub error_message: Option<String>,
}

/// The status a summary shows: its stored status, `Queued` when unreadable.
pub open spec fn shown_status(job: JobSummary) -> JobStatus {
    match job_status_from_text(job.status@) {
        Some(s) => s,
        None => JobStatus::Queued,
    }
}

/// The text of the message that tracks a job.
pub open spec fn status_text_spec(job: JobSummary) -> Seq<char> {
    let id = short_id_spec(job.id@);
    match shown_status(job) {
        JobStatus::Queued => "Queued (#"@ + id + ")"@,
        JobStatus::Downloading => "Downloading (#"@ + id + ") "@ + signed_decimal(
            job.progress_current as int,
        ) + "/"@ + signed_decimal(job.progress_total as int),
        JobStatus::Uploading => "Uploading to Drive (#"@ + id + ")"@,
        JobStatus::Completed => "Done \u{2713} (#"@ + id + ")"@,
        JobStatus::Failed => "Failed (#"@ + id + "): "@ + match job.error_message {
            Some(m) => m@,
            None => "unknown"@,
        },
    }
}

/// The message text that tracks a job's progress.
pub fn status_text(job: &JobSummary) -> (res: String)
    ensures
        res@ == status_text_spec(*job),
{
    let status = match parse_job_status(job.status.as_str()) {
        Some(s) => s,
        None => JobStatus::Queued,
    };
    let id = short_id(&job.id);
    let mut out: Vec<char>;
    match status {
        JobStatus::Queued => {
            out = chars_of("Queued (#");
            push_str(&mut out, id.as_str());
            push_str(&mut out, ")");
        },
        JobStatus::Downloading => {
            out = chars_of("Downloading (#");
            push_str(&mut out, id.as_str());
            push_str(&mut out, ") ");
            push_signed_decimal(&mut out, job.progress_current as i64);
            push_str(&mut out, "/");
            push_signed_decimal(&mut out, job.progress_total as i64);
        },
        JobStatus::Uploading => {
            out = chars_of("Uploading to Drive (#");
            push_str(&mut out, id.as_str());
            push_str(&mut out, ")");
        },
        JobStatus::Completed => {
            out = chars_of("Done \u{2713} (#");
            push_str(&mut out, id.as_str());
            push_str(&mut out, ")");
        },
        JobStatus::Failed => {
            out = chars_of("Failed (#");
            push_str(&mut out, id.as_str());
            push_str(&mut out, "): ");
            match &job.error_message {
                Some(m) => push_str(&mut out, m.as_str()),
                None => push_str(&mut out, "unknown"),
            }
        },
    }
    assert(out@ =~= status_text_spec(*job));
    string_from_chars(out.as_slice())
}

/// The name of a status as `Debug` prints it.
pub open spec fn status_debug_text(s: JobStatus) -> Seq<char> {
    match s {
        JobStatus::Queued => "Queued"@,
        JobStatus::Downloading => "Downloading"@,
        JobStatus::Uploading => "Uploading"@,
        JobStatus::Completed => "Completed"@,
        JobStatus::Failed => "Failed"@,
    }
}

fn status_debug_name(s: JobStatus) -> (res: &'static str)
    ensures
        res@ == status_debug_text(s),
{
    match s {
        JobStatus::Queued => "Queued",
        JobStatus::Downloading => "Downloading",
        JobStatus::Uploading => "Uploading",
        JobStatus::Completed => "Completed",
        JobStatus::Failed => "Failed",
    }
}

/// The `/status` line of a job whose stored status is readable.
pub open spec fn status_line_spec(job: JobSummary) -> Option<Seq<char>> {
    match job_status_from_text(job.status@) {
        Some(s) => Some(
            "#"@ + short_id_spec(job.id@) + " \u{2014} "@ + status_debug_text(s) + " ("@
                + signed_decimal(job.progress_current as int) + "/"@ + signed_decimal(
                job.progress_total as int,
            ) + ")"@,
        ),
        None => None,
    }
}

/// The `/status` lines of the jobs whose stored status is readable, in order.
pub open spec fn status_lines_spec(jobs: Seq<JobSummary>) -> Seq<Seq<char>>
    decreases jobs.len(),
{
    if jobs.len() == 0 {
        Seq::empty()
    } else {
        let prev = status_lines_spec(jobs.drop_last());
        match status_line_spec(jobs.last()) {
            Some(l) => prev.push(l),
            None => prev,
        }
    }
}

/// Lines joined with newlines.
pub open spec fn join_lines(lines: Seq<Seq<char>>) -> Seq<char>
    decreases lines.len(),
{
    if lines.len() == 0 {
        Seq::empty()
    } else if lines.len() == 1 {
        lines[0]
    } else {
        join_lines(lines.drop_last()) + seq!['\n'] + lines.last()
    }
}

/// The reply to `/status` for a user's recent jobs.
pub open spec fn status_report_spec(jobs: Seq<JobSummary>) -> Seq<char> {
    if jobs.len() == 0 {
        "No recent jobs."@
    } else {
        join_lines(status_lines_spec(jobs))
    }
}

/// One `/status` line: short id, status, progress.
pub fn status_line(job: &JobSummary) -> (res: Option<String>)
    ensures
        match res {
            Some(l) => status_line_spec(*job) == Some(l@),
            None => status_line_spec(*job) is None,
        },
{
    match parse_job_status(job.status.as_str()) {
        None => None,
        Some(s) => {
            let mut out = chars_of("#");
            let id = short_id(&job.id);
            push_str(&mut out, id.as_str());
            push_str(&mut out, " \u{2014} ");
            push_str(&mut out, status_debug_name(s));
            push_str(&mut out, " (");
            push_signed_decimal(&mut out, job.progress_current as i64);
            push_str(&mut out, "/");
            push_signed_decimal(&mut out, job.progress_total as i64);
            push_str(&mut out, ")");
            let ghost expected = status_line_spec(*job);
            assert(Some(out@) =~= expected);
            Some(string_from_chars(out.as_slice()))
        },
    }
}

/// The reply to `/status`: one line per job with a readable status, or a note when the
/// user has no recent jobs.
pub fn status_report(jobs: &Vec<JobSummary>) -> (res: String)
    ensures
        res@ == status_report_spec(jobs@),
{
    if jobs.len() == 0 {
        return "No recent jobs.".to_owned();
    }
    let mut out: Vec<char> = Vec::new();
    let ghost mut lines: Seq<Seq<char>> = Seq::empty();
    let mut any: bool = false;
    let mut k: usize = 0;
    while k < jobs.len()
        invariant
            k <= jobs@.len(),
            any == (lines.len() > 0),
            lines == status_lines_spec(jobs@.take(k as int)),
            out@ == join_lines(lines),
        decreases jobs@.len() - k,
    {
        proof {
            assert(jobs@.take(k + 1).drop_last() =~= jobs@.take(k as int));
            assert(jobs@.take(k + 1).last() == jobs@[k as int]);
        }
        match status_line(&jobs[k]) {
            Some(l) => {
                if any {
                    out.push('\n');
                }
                any = true;
                push_str(&mut out, l.as_str());
                proof {
                    let new_lines = lines.push(l@);
                    assert(new_lines.drop_last() =~= lines);
                    if lines.len() == 0 {
                        assert(out@ =~= join_lines(new_lines));
                    } else {
                        assert(out@ =~= join_lines(new_lines));
                    }
                    lines = new_lines;
                }
            },
            None => {},
        }
        k = k + 1;
    }
    assert(jobs@.take(jobs@.len() as int) =~= jobs@);
    string_from_chars(out.as_slice())
}

} // verus!
