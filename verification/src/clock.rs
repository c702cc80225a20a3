//! Wall-clock timestamps, and the export file name derived from them.

use vstd::prelude::*;
use crate::text::{
    four_digit_seq, push_four_digits, push_str_chars, push_two_digits, two_digit_seq,
};

verus! {

/// A broken-down UTC timestamp, as recorded in history entries and used to
/// derive export file names.
#[derive(Clone, Copy, Debug)]
pub struct UtcTime {
    pub year: i32,
    pub month: u8,
    pub day: u8,
    pub hour: u8,
    pub minute: u8,
    pub second: u8,
}

impl UtcTime {
    /// The component ranges every real timestamp satisfies.
    pub open spec fn wf(self) -> bool {
        &&& -9999 <= self.year <= 9999
        &&& 1 <= self.month <= 12
        &&& 1 <= self.day <= 31
        &&& self.hour < 24
        &&& self.minute < 60
        &&& self.second < 60
    }
}

/// Relies on `time::OffsetDateTime::now_utc` and its component accessors:
/// the crate documents that `year` lies in `-9999..=9999`, `month` (as a
/// number) in `1..=12`, `day` in `1..=31`, `hour` below 24, and `minute`
/// and `second` below 60.
#[verifier::external_body]
pub(crate) fn current_utc() -> (t: UtcTime)
    ensures
        t.wf(),
{
    let now = time::OffsetDateTime::now_utc();
    UtcTime {
        year: now.year(),
        month: now.month() as u8,
        day: now.day(),
        hour: now.hour(),
        minute: now.minute(),
        second: now.second(),
    }
}

/// A year clamped into the four-digit range used by the file-name pattern.
pub open spec fn display_year(y: int) -> int {
    if y < 0 {
        0
    } else {
        y
    }
}

/// The export file name for a timestamp: a fixed prefix, the six zero-padded
/// components separated by underscores, and a fixed suffix.
pub open spec fn filename_chars(t: UtcTime) -> Seq<char> {
    "bsky_response_"@ + four_digit_seq(display_year(t.year as int)) + "_"@ + two_digit_seq(
        t.month as int,
    ) + "_"@ + two_digit_seq(t.day as int) + "_"@ + two_digit_seq(t.hour as int) + "_"@
        + two_digit_seq(t.minute as int) + "_"@ + two_digit_seq(t.second as int) + ".json"@
}

/// Derives the export file name from a timestamp.
pub fn export_filename(t: &UtcTime) -> (r: Vec<char>)
    requires
        t.wf(),
    ensures
        r@ == filename_chars(*t),
{
    let year: u16 = if t.year < 0 {
        0
    } else {
        t.year as u16
    };
    let mut out: Vec<char> = Vec::new();
    push_str_chars(&mut out, "bsky_response_");
    push_four_digits(&mut out, year);
    push_str_chars(&mut out, "_");
    push_two_digits(&mut out, t.month);
    push_str_chars(&mut out, "_");
    push_two_digits(&mut out, t.day);
    push_str_chars(&mut out, "_");
    push_two_digits(&mut out, t.hour);
    push_str_chars(&mut out, "_");
    push_two_digits(&mut out, t.minute);
    push_str_chars(&mut out, "_");
    push_two_digits(&mut out, t.second);
    push_str_chars(&mut out, ".json");
    assert(out@ =~= filename_chars(*t));
    out
}

/// Derives the export file name from the current time.
pub fn export_filename_now() -> (r: Vec<char>)
    ensures
        exists|t: UtcTime| t.wf() && r@ == filename_chars(t),
{
    let t = current_utc();
    let r = export_filename(&t);
    assert(t.wf() && r@ == filename_chars(t));
    r
}

} // verus!
