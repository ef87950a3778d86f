//! Calendar timestamps as plain values, and the relative rendering used
//! next to an author name.

use vstd::prelude::*;

use crate::text::{dec_string, dec_string_signed, spec_dec, spec_dec_signed};

verus! {

/// A local calendar time, broken into the fields the client displays,
/// plus a running day count so two stamps can be compared by whole days.
#[derive(Clone, Copy)]
pub struct Stamp {
    pub year: i64,
    pub month: u32,
    pub day: u32,
    pub hour: u32,
    pub minute: u32,
    /// Days since the start of the common era, as a calendar-day counter.
    pub day_num: i64,
}

impl Stamp {
    pub open spec fn wf(&self) -> bool {
        &&& 1 <= self.month <= 12
        &&& 1 <= self.day <= 31
        &&& self.hour < 24
        &&& self.minute < 60
        &&& -0x8000_0000 <= self.year <= 0x7fff_ffff
        &&& -0x8000_0000 <= self.day_num <= 0x7fff_ffff
    }

}

/// Relies on chrono's `Local::now` with its `Datelike` and `Timelike`
/// accessors: months are numbered 1 to 12, days of the month 1 to 31,
/// hours below 24, minutes below 60 (a leap second is folded into 59),
/// and `num_days_from_ce` counts calendar days in an `i32`.
#[verifier::external_body]
pub fn local_now() -> (r: Stamp)
    ensures
        r.wf(),
{
    let t = chrono::Local::now();
    Stamp {
        year: chrono::Datelike::year(&t) as i64,
        month: chrono::Datelike::month(&t),
        day: chrono::Datelike::day(&t),
        hour: chrono::Timelike::hour(&t),
        minute: chrono::Timelike::minute(&t),
        day_num: chrono::Datelike::num_days_from_ce(&t) as i64,
    }
}

/// What `format_time` produces: the full date once a message is over a
/// week old, the wall-clock time for today, and the wall-clock time with
/// a day distance in between.
pub open spec fn spec_format_time(then: Stamp, now: Stamp) -> Seq<char> {
    let days = now.day_num - then.day_num;
    if days > 7 {
        spec_dec(then.month as int) + seq!['/'] + spec_dec(then.day as int) + seq!['/']
            + spec_dec_signed(then.year as int)
    } else if days == 0 {
        spec_dec(then.hour as int) + seq![':'] + spec_dec(then.minute as int)
    } else {
        spec_dec(then.hour as int) + seq![':'] + spec_dec(then.minute as int) + seq!['-']
            + spec_dec_signed(days)
    }
}

/// Renders `then` relative to `now` for display next to an author name.
pub fn format_time(then: &Stamp, now: &Stamp) -> (r: String)
    requires
        then.wf(),
        now.wf(),
    ensures
        r@ == spec_format_time(*then, *now),
{
    proof {
        reveal_strlit("/");
        reveal_strlit(":");
        reveal_strlit("-");
    }
    let days: i64 = now.day_num - then.day_num;
    if days > 7 {
        let mut s = dec_string(then.month as u64);
        s.append("/");
        s.append(dec_string(then.day as u64).as_str());
        s.append("/");
        s.append(dec_string_signed(then.year).as_str());
        s
    } else if days == 0 {
        let mut s = dec_string(then.hour as u64);
        s.append(":");
        s.append(dec_string(then.minute as u64).as_str());
        s
    } else {
        let mut s = dec_string(then.hour as u64);
        s.append(":");
        s.append(dec_string(then.minute as u64).as_str());
        s.append("-");
        s.append(dec_string_signed(days).as_str());
        s
    }
}

} // verus!
