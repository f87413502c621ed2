//! Days of the calendar as numbers. Day 1 is the first of January of year 1,
//! a Monday, so that the day of the week follows from the number alone.

use vstd::prelude::*;

verus! {

/// Days since the Monday of the week: 0 for a Monday, 6 for a Sunday.
pub open spec fn days_from_monday(day: int) -> int {
    (day - 1) % 7
}

/// The ISO number of the day of the week: 1 for a Monday, 7 for a Sunday.
pub open spec fn iso_weekday(day: int) -> int {
    days_from_monday(day) + 1
}

/// The Monday of the week that holds a day.
pub open spec fn monday_of(day: int) -> int {
    day - days_from_monday(day)
}

/// Days since the Monday of the week.
pub fn weekday_from_monday(day: i32) -> (k: i32)
    ensures
        k == days_from_monday(day as int),
        0 <= k <= 6,
{
    // 306783379 whole weeks lift every day above zero without moving it in its week
    let lifted: i64 = day as i64 - 1 + 7 * 306783379;
    let k: i64 = lifted % 7;
    assert(((day as int - 1) + 7 * 306783379) % 7 == (day as int - 1) % 7) by (nonlinear_arith);
    k as i32
}

/// The Monday of the week that holds `date`.
pub fn find_monday(date: i32) -> (monday: i32)
    requires
        date >= i32::MIN + 6,
    ensures
        monday == monday_of(date as int),
        days_from_monday(monday as int) == 0,
        monday <= date < monday + 7,
{
    let k = weekday_from_monday(date);
    proof {
        let d = date as int;
        assert((d - 1 - ((d - 1) % 7)) % 7 == 0) by (nonlinear_arith);
    }
    date - k
}

/// The English name of a day of the week, counted from Monday.
pub open spec fn day_name_of(k: int) -> Seq<char> {
    if k == 0 {
        "Monday"@
    } else if k == 1 {
        "Tuesday"@
    } else if k == 2 {
        "Wednesday"@
    } else if k == 3 {
        "Thursday"@
    } else if k == 4 {
        "Friday"@
    } else if k == 5 {
        "Saturday"@
    } else {
        "Sunday"@
    }
}

/// The English name of the day that lies `k` days after a Monday.
pub fn day_name(k: usize) -> (name: &'static str)
    requires
        k < 7,
    ensures
        name@ == day_name_of(k as int),
{
    if k == 0 {
        "Monday"
    } else if k == 1 {
        "Tuesday"
    } else if k == 2 {
        "Wednesday"
    } else if k == 3 {
        "Thursday"
    } else if k == 4 {
        "Friday"
    } else if k == 5 {
        "Saturday"
    } else {
        "Sunday"
    }
}

} // verus!
