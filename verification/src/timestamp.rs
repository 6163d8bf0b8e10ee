//! The closing line's timestamp: a reading of the local clock, rendered as
//! `DD-MM-YYYY HH:MM:SS` with zero-padded fields.

use crate::numfmt::{push_decimal, spec_decimal};
use vstd::prelude::*;

verus! {

/// One reading of the local clock, split into plain calendar fields.
pub struct LocalTime {
    pub year: i32,
    pub month: u32,
    pub day: u32,
    pub hour: u32,
    pub minute: u32,
    pub second: u32,
}

impl LocalTime {
    /// Each field lies within the range its calendar position allows.
    pub open spec fn wf(self) -> bool {
        &&& 1 <= self.month <= 12
        &&& 1 <= self.day <= 31
        &&& self.hour < 24
        &&& self.minute < 60
        &&& self.second < 60
    }
}

/// A decimal field zero-padded to at least two digits.
pub open spec fn spec_pad2(n: int) -> Seq<char>
    recommends
        0 <= n < 100,
{
    if n < 10 {
        "0"@ + spec_decimal(n as nat)
    } else {
        spec_decimal(n as nat)
    }
}

/// A decimal field zero-padded to at least four digits.
pub open spec fn spec_pad4(n: int) -> Seq<char>
    recommends
        0 <= n,
{
    if n < 10 {
        "000"@ + spec_decimal(n as nat)
    } else if n < 100 {
        "00"@ + spec_decimal(n as nat)
    } else if n < 1000 {
        "0"@ + spec_decimal(n as nat)
    } else {
        spec_decimal(n as nat)
    }
}

/// The year field: four digits, zero-padded, with a leading sign when the
/// year is negative.
pub open spec fn spec_year(y: int) -> Seq<char> {
    if y < 0 {
        "-"@ + spec_pad4(-y)
    } else {
        spec_pad4(y)
    }
}

/// The timestamp rendering `DD-MM-YYYY HH:MM:SS` of one clock reading.
pub open spec fn spec_timestamp(t: LocalTime) -> Seq<char> {
    spec_pad2(t.day as int) + "-"@ + spec_pad2(t.month as int) + "-"@ + spec_year(t.year as int)
        + " "@ + spec_pad2(t.hour as int) + ":"@ + spec_pad2(t.minute as int) + ":"@ + spec_pad2(
        t.second as int,
    )
}

/// Appends a two-digit zero-padded decimal field to `out`.
fn push_pad2(out: &mut String, n: u32)
    requires
        n < 100,
    ensures
        final(out)@ == old(out)@ + spec_pad2(n as int),
{
    if n < 10 {
        out.append("0");
    }
    push_decimal(out, n as u64);
    proof {
        assert(out@ =~= old(out)@ + spec_pad2(n as int));
    }
}

/// Appends a four-digit zero-padded decimal field to `out`.
fn push_pad4(out: &mut String, n: u64)
    ensures
        final(out)@ == old(out)@ + spec_pad4(n as int),
{
    if n < 10 {
        out.append("000");
    } else if n < 100 {
        out.append("00");
    } else if n < 1000 {
        out.append("0");
    }
    push_decimal(out, n);
    proof {
        assert(out@ =~= old(out)@ + spec_pad4(n as int));
    }
}

/// Renders one clock reading as `DD-MM-YYYY HH:MM:SS`.
pub fn format_timestamp(t: &LocalTime) -> (r: String)
    requires
        t.wf(),
    ensures
        r@ == spec_timestamp(*t),
{
    let mut out = String::new();
    push_pad2(&mut out, t.day);
    out.append("-");
    push_pad2(&mut out, t.month);
    out.append("-");
    if t.year < 0 {
        out.append("-");
        let y_mag: i64 = -(t.year as i64);
        push_pad4(&mut out, y_mag as u64);
    } else {
        push_pad4(&mut out, t.year as u64);
    }
    out.append(" ");
    push_pad2(&mut out, t.hour);
    out.append(":");
    push_pad2(&mut out, t.minute);
    out.append(":");
    push_pad2(&mut out, t.second);
    proof {
        assert(out@ =~= spec_timestamp(*t));
    }
    out
}

/// Relies on chrono::Local::now and on chrono's Datelike and Timelike
/// accessors for the reading it returns: month() ranges over 1 to 12, day()
/// over 1 to 31, hour() over 0 to 23, minute() and second() over 0 to 59.
#[verifier::external_body]
fn local_now_parts() -> (t: LocalTime)
    ensures
        t.wf(),
{
    let now = chrono::Local::now();
    LocalTime {
        year: chrono::Datelike::year(&now),
        month: chrono::Datelike::month(&now),
        day: chrono::Datelike::day(&now),
        hour: chrono::Timelike::hour(&now),
        minute: chrono::Timelike::minute(&now),
        second: chrono::Timelike::second(&now),
    }
}

/// The current local time rendered as `DD-MM-YYYY HH:MM:SS`: the rendering of
/// some well-formed clock reading.
pub fn current_timestamp() -> (r: String)
    ensures
        exists|t: LocalTime| #[trigger] t.wf() && r@ == spec_timestamp(t),
{
    let t = local_now_parts();
    let r = format_timestamp(&t);
    proof {
        assert(t.wf() && r@ == spec_timestamp(t));
    }
    r
}

} // verus!
