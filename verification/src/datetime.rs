//! Time differences: a span of seconds split into days, hours, minutes and
//! seconds, with a human-readable rendering.

use vstd::prelude::*;
use vstd::string::StringExecFns;

use crate::text::{append_dec_i64, dec_of_int};

verus! {

/// Signed division truncating toward zero, as the division operator of the
/// machine integers behaves.
pub open spec fn tdiv(a: int, b: int) -> int
    recommends
        b > 0,
{
    if a >= 0 {
        a / b
    } else {
        -((-a) / b)
    }
}

/// Signed remainder with the dividend's sign, the counterpart of [`tdiv`].
pub open spec fn tmod(a: int, b: int) -> int
    recommends
        b > 0,
{
    if a >= 0 {
        a % b
    } else {
        -((-a) % b)
    }
}

/// Divides truncating toward zero.
fn div_trunc(a: i64, d: u64) -> (r: i64)
    requires
        2 <= d <= u32::MAX,
    ensures
        r == tdiv(a as int, d as int),
{
    if a >= 0 {
        proof {
            vstd::arithmetic::div_mod::lemma_div_is_ordered_by_denominator(a as int, 1, d as int);
        }
        ((a as u64) / d) as i64
    } else {
        let m = (-(a as i128)) as u64;
        proof {
            vstd::arithmetic::div_mod::lemma_div_is_ordered_by_denominator(m as int, 2, d as int);
        }
        -((m / d) as i64)
    }
}

/// The remainder of truncating division.
fn mod_trunc(a: i64, d: u64) -> (r: i64)
    requires
        2 <= d <= u32::MAX,
    ensures
        r == tmod(a as int, d as int),
{
    if a >= 0 {
        ((a as u64) % d) as i64
    } else {
        let m = (-(a as i128)) as u64;
        -((m % d) as i64)
    }
}

/// A time difference, stored as a total number of seconds.
#[derive(Debug, Clone, Copy)]
pub struct TimeDiff {
    /// The whole span in seconds.
    pub total_seconds: i64,
}

/// The human-readable rendering of a split time difference: the two or three
/// largest units that are meaningful at this magnitude.
pub open spec fn spec_humanize(days: int, hours: int, minutes: int, seconds: int) -> Seq<char> {
    if days > 0 {
        dec_of_int(days) + "天"@ + dec_of_int(hours) + "小时"@ + dec_of_int(minutes) + "分钟"@
    } else if hours > 0 {
        dec_of_int(hours) + "小时"@ + dec_of_int(minutes) + "分钟"@
    } else if minutes > 0 {
        dec_of_int(minutes) + "分钟"@ + dec_of_int(seconds) + "秒"@
    } else {
        dec_of_int(seconds) + "秒"@
    }
}

impl TimeDiff {
    /// Builds a difference from a number of seconds.
    pub fn from_seconds(secs: i64) -> (r: Self)
        ensures
            r.total_seconds == secs,
    {
        Self { total_seconds: secs }
    }

    /// Whole days in the span.
    pub fn days(&self) -> (r: i64)
        ensures
            r == tdiv(self.total_seconds as int, 86400),
    {
        div_trunc(self.total_seconds, 86400)
    }

    /// Hours in the span beyond the whole days.
    pub fn hours(&self) -> (r: i64)
        ensures
            r == tdiv(tmod(self.total_seconds as int, 86400), 3600),
    {
        div_trunc(mod_trunc(self.total_seconds, 86400), 3600)
    }

    /// Minutes in the span beyond the whole hours.
    pub fn minutes(&self) -> (r: i64)
        ensures
            r == tdiv(tmod(self.total_seconds as int, 3600), 60),
    {
        div_trunc(mod_trunc(self.total_seconds, 3600), 60)
    }

    /// Seconds in the span beyond the whole minutes.
    pub fn seconds(&self) -> (r: i64)
        ensures
            r == tmod(self.total_seconds as int, 60),
    {
        mod_trunc(self.total_seconds, 60)
    }

    /// The whole span in hours.
    pub fn total_hours(&self) -> (r: i64)
        ensures
            r == tdiv(self.total_seconds as int, 3600),
    {
        div_trunc(self.total_seconds, 3600)
    }

    /// The whole span in minutes.
    pub fn total_minutes(&self) -> (r: i64)
        ensures
            r == tdiv(self.total_seconds as int, 60),
    {
        div_trunc(self.total_seconds, 60)
    }

    /// Renders the span with its largest meaningful units.
    pub fn humanize(&self) -> (r: String)
        ensures
            r@ == spec_humanize(
                tdiv(self.total_seconds as int, 86400),
                tdiv(tmod(self.total_seconds as int, 86400), 3600),
                tdiv(tmod(self.total_seconds as int, 3600), 60),
                tmod(self.total_seconds as int, 60),
            ),
    {
        let days = self.days();
        let hours = self.hours();
        let minutes = self.minutes();
        let seconds = self.seconds();

        let mut out = String::new();
        if days > 0 {
            append_dec_i64(&mut out, days);
            out.append("天");
            append_dec_i64(&mut out, hours);
            out.append("小时");
            append_dec_i64(&mut out, minutes);
            out.append("分钟");
        } else if hours > 0 {
            append_dec_i64(&mut out, hours);
            out.append("小时");
            append_dec_i64(&mut out, minutes);
            out.append("分钟");
        } else if minutes > 0 {
            append_dec_i64(&mut out, minutes);
            out.append("分钟");
            append_dec_i64(&mut out, seconds);
            out.append("秒");
        } else {
            append_dec_i64(&mut out, seconds);
            out.append("秒");
        }
        proof {
            assert(out@ =~= spec_humanize(
                tdiv(self.total_seconds as int, 86400),
                tdiv(tmod(self.total_seconds as int, 86400), 3600),
                tdiv(tmod(self.total_seconds as int, 3600), 60),
                tmod(self.total_seconds as int, 60),
            ));
        }
        out
    }
}

} // verus!
