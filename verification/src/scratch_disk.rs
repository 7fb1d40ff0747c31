//! Scratch-disk thresholds and the switch that pauses job workers when space runs low.
use vstd::prelude::*;
use crate::text::{ascii_lowercase, chars_of, contains_chars, to_ascii_lowercase};
use crate::ytdlp_errors::{classify_spec, disk_full_marker, YtDlpFailureKind};

verus! {

/// One mebibyte.
pub const MIB: u64 = 1048576;

/// Free-space thresholds for the scratch directory, in bytes.
#[derive(Debug, Clone, Copy, PartialEq, Eq, Structural)]
pub struct ScratchThresholds {
    /// Below this, workers stop claiming jobs.
    pub min_free_bytes: u64,
    /// Once paused, workers resume only at or above this.
    pub resume_free_bytes: u64,
}

/// `a * b`, or `u64::MAX` when the product does not fit (`u64::saturating_mul`).
pub open spec fn sat_mul(a: u64, b: u64) -> u64 {
    if a * b <= u64::MAX {
        (a * b) as u64
    } else {
        u64::MAX
    }
}

/// `a + b`, or `u64::MAX` when the sum does not fit (`u64::saturating_add`).
pub open spec fn sat_add(a: u64, b: u64) -> u64 {
    if a + b <= u64::MAX {
        (a + b) as u64
    } else {
        u64::MAX
    }
}

/// The thresholds for `min_mb` and `resume_mb` mebibytes: a resume threshold that is not
/// above the minimum is raised to the minimum plus 256 MiB.
pub open spec fn thresholds_spec(min_mb: u64, resume_mb: u64) -> ScratchThresholds {
    let min = sat_mul(min_mb, MIB);
    let resume = sat_mul(resume_mb, MIB);
    ScratchThresholds {
        min_free_bytes: min,
        resume_free_bytes: if resume <= min {
            sat_add(min, 268435456)
        } else {
            resume
        },
    }
}

/// Saturating multiplication.
fn saturating_mul_u64(a: u64, b: u64) -> (res: u64)
    ensures
        res == sat_mul(a, b),
{
    match a.checked_mul(b) {
        Some(p) => p,
        None => u64::MAX,
    }
}

/// Converts the two megabyte settings into byte thresholds, making sure resuming needs
/// more free space than pausing.
pub fn parse_scratch_thresholds_mb(min_mb: u64, resume_mb: u64) -> (res: ScratchThresholds)
    ensures
        res == thresholds_spec(min_mb, resume_mb),
{
    let min_free_bytes = saturating_mul_u64(min_mb, MIB);
    let mut resume_free_bytes = saturating_mul_u64(resume_mb, MIB);
    if resume_free_bytes <= min_free_bytes {
        resume_free_bytes = min_free_bytes.saturating_add(268435456);
    }
    ScratchThresholds { min_free_bytes, resume_free_bytes }
}

/// Resuming always needs strictly more free space than pausing, unless the minimum is
/// already the largest representable value.
pub proof fn lemma_resume_above_min(min_mb: u64, resume_mb: u64)
    ensures
        thresholds_spec(min_mb, resume_mb).min_free_bytes < u64::MAX ==> thresholds_spec(
            min_mb,
            resume_mb,
        ).resume_free_bytes > thresholds_spec(min_mb, resume_mb).min_free_bytes,
{
}

/// Whether `free_bytes` is below `min_free_bytes`.
pub fn is_low(free_bytes: u64, min_free_bytes: u64) -> (res: bool)
    ensures
        res == (free_bytes < min_free_bytes),
{
    free_bytes < min_free_bytes
}

/// Whether an error message reports a full disk (compared without ASCII case).
pub open spec fn disk_full_spec(msg: Seq<char>) -> bool {
    disk_full_marker(ascii_lowercase(msg))
}

/// Whether `msg` reports a full disk ("no space left on device" or "errno 28").
pub fn disk_full_in_message(msg: &str) -> (res: bool)
    ensures
        res == disk_full_spec(msg@),
{
    let low = to_ascii_lowercase(chars_of(msg).as_slice());
    let a = chars_of("no space left on device");
    let b = chars_of("errno 28");
    contains_chars(low.as_slice(), a.as_slice()) || contains_chars(low.as_slice(), b.as_slice())
}

/// A yt-dlp output classified as a full disk is also recognised as one by
/// `disk_full_in_message`.
pub proof fn lemma_disk_full_kind_is_disk_full_message(stderr: Seq<char>)
    requires
        classify_spec(stderr) == YtDlpFailureKind::DiskFull,
    ensures
        disk_full_spec(stderr),
{
}

/// Pauses job workers while scratch space is low, with hysteresis.
pub struct DiskPressureGate {
    pressured: bool,
}

/// The switch's state after seeing `free_bytes`: pressured below the minimum, relieved
/// at or above the resume threshold, unchanged in between.
pub open spec fn next_pressure(pressured: bool, free_bytes: u64, t: ScratchThresholds) -> bool {
    if free_bytes < t.min_free_bytes {
        true
    } else if pressured && free_bytes >= t.resume_free_bytes {
        false
    } else {
        pressured
    }
}

impl DiskPressureGate {
    /// Whether the switch currently holds workers back.
    pub closed spec fn pressured_spec(&self) -> bool {
        self.pressured
    }

    /// A switch that lets workers run.
    pub fn new() -> (res: Self)
        ensures
            !res.pressured_spec(),
    {
        DiskPressureGate { pressured: false }
    }

    /// Whether workers are currently held back.
    pub fn is_pressured(&self) -> (res: bool)
        ensures
            res == self.pressured_spec(),
    {
        self.pressured
    }

    /// Holds workers back until enough space is observed (used after a job hit a full disk).
    pub fn force_pressure(&mut self)
        ensures
            final(self).pressured_spec(),
    {
        self.pressured = true;
    }

    /// Updates the switch with the observed free space; returns whether workers should skip
    /// claiming jobs now.
    pub fn evaluate(&mut self, free_bytes: u64, thresholds: &ScratchThresholds) -> (res: bool)
        ensures
            final(self).pressured_spec() == next_pressure(
                old(self).pressured_spec(),
                free_bytes,
                *thresholds,
            ),
            res == final(self).pressured_spec(),
    {
        if free_bytes < thresholds.min_free_bytes {
            self.pressured = true;
            return true;
        }
        if self.pressured && free_bytes >= thresholds.resume_free_bytes {
            self.pressured = false;
        }
        self.pressured
    }
}

impl Default for DiskPressureGate {
    fn default() -> (res: Self)
        ensures
            !res.pressured_spec(),
    {
        Self::new()
    }
}

/// Below the minimum the switch always pauses workers.
pub proof fn lemma_low_space_pauses(pressured: bool, free_bytes: u64, t: ScratchThresholds)
    requires
        free_bytes < t.min_free_bytes,
    ensures
        next_pressure(pressured, free_bytes, t),
{
}

/// A paused switch stays paused until the free space reaches the resume threshold.
pub proof fn lemma_pause_holds_until_resume(free_bytes: u64, t: ScratchThresholds)
    requires
        free_bytes < t.resume_free_bytes,
    ensures
        next_pressure(true, free_bytes, t),
{
}

/// A running switch stays running while the free space is at or above the minimum.
pub proof fn lemma_running_stays_running(free_bytes: u64, t: ScratchThresholds)
    requires
        free_bytes >= t.min_free_bytes,
    ensures
        !next_pressure(false, free_bytes, t),
{
}

/// At or above both thresholds the switch always lets workers run.
pub proof fn lemma_enough_space_resumes(pressured: bool, free_bytes: u64, t: ScratchThresholds)
    requires
        free_bytes >= t.min_free_bytes,
        free_bytes >= t.resume_free_bytes,
    ensures
        !next_pressure(pressured, free_bytes, t),
{
}

} // verus!
