//! The fixed-weekday reminder schedule: from the clock's reading to the next
//! instant a reminder fires, in pure timestamp arithmetic.
//!
//! An instant is a Unix timestamp in seconds; a civil day is the timestamp
//! divided down by the seconds it holds, and the first day of 1970 was a
//! Thursday.

use vstd::prelude::*;

use vstd::arithmetic::div_mod::{
    lemma_add_mod_noop, lemma_add_mod_noop_right, lemma_fundamental_div_mod,
    lemma_fundamental_div_mod_converse, lemma_mod_division_less_than_divisor, lemma_small_mod,
};

verus! {

/// A day of the week.
#[derive(Clone, Copy, PartialEq, Eq, Structural)]
pub enum Weekday {
    Monday,
    Tuesday,
    Wednesday,
    Thursday,
    Friday,
    Saturday,
    Sunday,
}

/// Days are numbered from Monday, which makes the epoch day number 3.
pub open spec fn weekday_number(d: Weekday) -> int {
    match d {
        Weekday::Monday => 0,
        Weekday::Tuesday => 1,
        Weekday::Wednesday => 2,
        Weekday::Thursday => 3,
        Weekday::Friday => 4,
        Weekday::Saturday => 5,
        Weekday::Sunday => 6,
    }
}

/// The civil day an instant falls on, counted from the epoch.
pub open spec fn day_of(ts: int) -> int {
    ts / 86400
}

/// The instant an instant's civil day begins.
pub open spec fn midnight_of(ts: int) -> int {
    ts - ts % 86400
}

/// The day of the week an instant falls on.
pub open spec fn weekday_index_of(ts: int) -> int {
    (day_of(ts) + 3) % 7
}

/// The day of the week an instant falls on, by name.
pub open spec fn weekday_of(ts: int) -> Weekday {
    let i = weekday_index_of(ts);
    if i == 0 {
        Weekday::Monday
    } else if i == 1 {
        Weekday::Tuesday
    } else if i == 2 {
        Weekday::Wednesday
    } else if i == 3 {
        Weekday::Thursday
    } else if i == 4 {
        Weekday::Friday
    } else if i == 5 {
        Weekday::Saturday
    } else {
        Weekday::Sunday
    }
}

fn weekday_number_ex(d: Weekday) -> (r: i64)
    ensures
        r == weekday_number(d),
{
    match d {
        Weekday::Monday => 0,
        Weekday::Tuesday => 1,
        Weekday::Wednesday => 2,
        Weekday::Thursday => 3,
        Weekday::Friday => 4,
        Weekday::Saturday => 5,
        Weekday::Sunday => 6,
    }
}

/// The instant the next reminder fires: the first instant at `hour` o'clock
/// UTC on a `target` weekday, starting the search at the beginning of the
/// day `now_ts` falls on. When `now_ts` falls on the target weekday itself,
/// that day's instant is chosen, even when it lies earlier in the day.
pub fn next_weekday_time(now_ts: i64, hour: u8, target: Weekday) -> (r: i64)
    requires
        hour < 24,
        i64::MIN + 86400 <= now_ts <= i64::MAX - 604800,
    ensures
        weekday_of(r as int) == target,
        r as int % 86400 == hour * 3600,
        midnight_of(now_ts as int) + hour * 3600 <= r as int,
        (r as int) < midnight_of(now_ts as int) + hour * 3600 + 604800,
{
    let rem = match now_ts.checked_rem_euclid(86400) {
        Some(v) => v,
        None => 0,
    };
    proof {
        lemma_mod_division_less_than_divisor(now_ts as int, 86400);
    }
    let midnight = now_ts - rem;
    let days = match midnight.checked_div_euclid(86400) {
        Some(v) => v,
        None => 0,
    };
    proof {
        lemma_fundamental_div_mod(now_ts as int, 86400);
        assert(midnight == 86400 * (now_ts as int / 86400));
        lemma_fundamental_div_mod_converse(
            midnight as int,
            86400,
            now_ts as int / 86400,
            0,
        );
        assert(days == now_ts as int / 86400);
    }
    let idx = match (days + 3).checked_rem_euclid(7) {
        Some(v) => v,
        None => 0,
    };
    proof {
        lemma_mod_division_less_than_divisor(days as int + 3, 7);
        assert(idx == weekday_index_of(now_ts as int));
    }
    let tgt = weekday_number_ex(target);
    let delta = match (tgt - idx).checked_rem_euclid(7) {
        Some(v) => v,
        None => 0,
    };
    proof {
        lemma_mod_division_less_than_divisor(tgt as int - idx as int, 7);
    }
    let r = midnight + (hour as i64) * 3600 + delta * 86400;
    proof {
        let h = hour as int * 3600;
        lemma_fundamental_div_mod_converse(r as int, 86400, days as int + delta as int, h);
        assert(r as int % 86400 == h);
        assert(day_of(r as int) == days as int + delta as int);
        // The chosen day lands on the target weekday.
        lemma_add_mod_noop_right(days as int + 3, tgt as int - idx as int, 7);
        assert((days as int + 3 + delta as int) % 7 == (days as int + 3 + (tgt as int - idx
            as int)) % 7);
        lemma_add_mod_noop(days as int + 3, tgt as int - idx as int, 7);
        assert((days as int + 3 + (tgt as int - idx as int)) % 7 == ((idx as int) + (tgt as int
            - idx as int) % 7) % 7) by {
            lemma_add_mod_noop_right(idx as int, tgt as int - idx as int, 7);
            lemma_add_mod_noop((days as int + 3) % 7, tgt as int - idx as int, 7);
            lemma_small_mod(idx as nat, 7);
        }
        lemma_add_mod_noop_right(idx as int, tgt as int - idx as int, 7);
        assert(((idx as int) + (tgt as int - idx as int) % 7) % 7 == (tgt as int) % 7);
        lemma_small_mod(tgt as nat, 7);
        assert(weekday_index_of(r as int) == tgt);
    }
    r
}

} // verus!
