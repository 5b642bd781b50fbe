//! Billing periods: from the count and unit of a store to an ISO-8601
//! duration such as `P1M`.

use crate::text::{decimal, push_decimal};
use vstd::prelude::*;

verus! {

/// The unit in which a store counts a billing period.
#[derive(Debug, Clone, Copy, PartialEq, Eq, Structural)]
pub enum PeriodUnit {
    Day,
    Week,
    Month,
    Year,
}

/// The unit that a store's unit code names. The store counts in minutes
/// (0), hours (1), days (2), weeks (3), months (4) and years (5). A day, a
/// week, a month and a year are read as such; a minute, an hour and every
/// code that names no unit count as a month.
pub open spec fn unit_of_code(code: i32) -> PeriodUnit {
    if code == 2 {
        PeriodUnit::Day
    } else if code == 3 {
        PeriodUnit::Week
    } else if code == 5 {
        PeriodUnit::Year
    } else {
        PeriodUnit::Month
    }
}

/// The designator of a unit in an ISO-8601 duration.
pub open spec fn unit_letter(unit: PeriodUnit) -> char {
    match unit {
        PeriodUnit::Day => 'D',
        PeriodUnit::Week => 'W',
        PeriodUnit::Month => 'M',
        PeriodUnit::Year => 'Y',
    }
}

/// The ISO-8601 duration of `count` units: `P`, the count in decimal, the
/// unit's designator.
pub open spec fn billing_period_text(count: u32, unit: PeriodUnit) -> Seq<char> {
    seq!['P'] + decimal(count as nat) + seq![unit_letter(unit)]
}

impl PeriodUnit {
    /// Reads a store's unit code; a code that names none of the four units
    /// counts as a month.
    pub fn from_code(code: i32) -> (r: PeriodUnit)
        ensures
            r == unit_of_code(code),
    {
        if code == 2 {
            PeriodUnit::Day
        } else if code == 3 {
            PeriodUnit::Week
        } else if code == 5 {
            PeriodUnit::Year
        } else {
            PeriodUnit::Month
        }
    }
}

/// Writes a billing period as an ISO-8601 duration.
pub fn encode_billing_period(count: u32, unit: PeriodUnit) -> (r: String)
    ensures
        r@ == billing_period_text(count, unit),
{
    let mut out: String = String::from_str("P");
    push_decimal(&mut out, count as u64);
    proof {
        reveal_strlit("P");
        reveal_strlit("D");
        reveal_strlit("W");
        reveal_strlit("M");
        reveal_strlit("Y");
    }
    match unit {
        PeriodUnit::Day => out.append("D"),
        PeriodUnit::Week => out.append("W"),
        PeriodUnit::Month => out.append("M"),
        PeriodUnit::Year => out.append("Y"),
    }
    assert(out@ =~= billing_period_text(count, unit));
    out
}

} // verus!
