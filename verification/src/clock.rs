//! Instants and times of day.
//!
//! An instant is a count of seconds since the Unix epoch (UTC); a time of
//! day is a count of seconds since local midnight, always below
//! [`SECS_PER_DAY`]. Timestamps handled by the scheduler stay below
//! [`MAX_INSTANT`] so that a day of slack never overflows.

use vstd::prelude::*;

verus! {

/// Seconds in one civil day.
pub const SECS_PER_DAY: u32 = 86400;

/// Largest instant the scheduler accepts; leaves room for two days of
/// arithmetic below `i64::MAX`.
pub const MAX_INSTANT: i64 = i64::MAX - 172800;

/// Decimal digit test on a character.
pub open spec fn is_digit(c: char) -> bool {
    '0' <= c && c <= '9'
}

/// Numeric value of a decimal digit character.
pub open spec fn digit_val(c: char) -> int {
    c as int - '0' as int
}

/// The value of a run of one or two decimal digits, as a clock field
/// writes it.
pub open spec fn digits_val(s: Seq<char>) -> Option<int> {
    if s.len() == 1 && is_digit(s[0]) {
        Some(digit_val(s[0]))
    } else if s.len() == 2 && is_digit(s[0]) && is_digit(s[1]) {
        Some(digit_val(s[0]) * 10 + digit_val(s[1]))
    } else {
        None
    }
}

/// Seconds since midnight encoded by an `H:MM`-style text, if well
/// formed: an hour of one or two digits, a colon, a minute of one or two
/// digits, hour below 24 and minute below 60.
pub open spec fn hhmm_seconds(s: Seq<char>) -> Option<u32> {
    match s.index_of_first(':') {
        Some(i) => if 0 <= i < s.len() {
            match (digits_val(s.take(i)), digits_val(s.skip(i + 1))) {
                (Some(h), Some(m)) => if h < 24 && m < 60 {
                    Some((h * 3600 + m * 60) as u32)
                } else {
                    None
                },
                _ => None,
            }
        } else {
            // `index_of_first` never yields an index out of range.
            None
        },
        None => None,
    }
}

/// The value of the one- or two-digit run at `s[from..to]`.
fn parse_digits(s: &str, from: usize, to: usize) -> (r: Option<u32>)
    requires
        from <= to <= s@.len(),
    ensures
        match digits_val(s@.subrange(from as int, to as int)) {
            Some(v) => r == Some(v as u32),
            None => r is None,
        },
        r is Some ==> r->0 < 100,
{
    let len = to - from;
    if len == 1 {
        let c = s.get_char(from);
        if c >= '0' && c <= '9' {
            Some(c as u32 - 48)
        } else {
            None
        }
    } else if len == 2 {
        let c0 = s.get_char(from);
        let c1 = s.get_char(from + 1);
        if c0 >= '0' && c0 <= '9' && c1 >= '0' && c1 <= '9' {
            Some((c0 as u32 - 48) * 10 + (c1 as u32 - 48))
        } else {
            None
        }
    } else {
        None
    }
}

/// Parses an `H:MM`-style time of day into seconds since midnight.
pub fn parse_hhmm(s: &str) -> (r: Option<u32>)
    ensures
        r == hhmm_seconds(s@),
        r is Some ==> r->0 < SECS_PER_DAY,
{
    let n = s.unicode_len();
    let mut j: usize = 0;
    while j < n && s.get_char(j) != ':'
        invariant
            j <= n,
            n == s@.len(),
            forall|k: int| 0 <= k < j ==> s@[k] != ':',
        decreases n - j,
    {
        j = j + 1;
    }
    proof {
        s@.index_of_first_ensures(':');
        if j < n {
            match s@.index_of_first(':') {
                Some(i) => {
                    if i < j {
                        assert(s@[i] != ':');
                        assert(false);
                    }
                    if i > j {
                        assert(s@[j as int] != ':');
                        assert(false);
                    }
                },
                None => {
                    assert(s@.contains(s@[j as int]));
                    assert(false);
                },
            }
        } else {
            match s@.index_of_first(':') {
                Some(i) => {
                    assert(s@[i] == ':');
                    assert(false);
                },
                None => {},
            }
        }
    }
    if j == n {
        return None;
    }
    let hv = parse_digits(s, 0, j);
    let mv = parse_digits(s, j + 1, n);
    proof {
        assert(s@.take(j as int) =~= s@.subrange(0, j as int));
        assert(s@.skip(j + 1) =~= s@.subrange(j + 1, n as int));
    }
    match (hv, mv) {
        (Some(h), Some(m)) => {
            if h < 24 && m < 60 {
                Some(h * 3600 + m * 60)
            } else {
                None
            }
        },
        _ => None,
    }
}

/// The instant the scheduler gives a recurring reminder that fires at
/// `now` with daily time of day `tod`: the start of `now`'s day plus
/// `tod`, pushed one day later when that is not strictly after `now`.
pub open spec fn next_daily_spec(now: int, tod: int) -> int {
    let day_start = now - now % (SECS_PER_DAY as int);
    if day_start + tod > now {
        day_start + tod
    } else {
        day_start + tod + SECS_PER_DAY
    }
}

/// The next daily occurrence lies strictly after `now` and at most one
/// day later.
pub proof fn lemma_next_daily_spec_bounds(now: int, tod: int)
    requires
        0 <= now,
        0 <= tod < SECS_PER_DAY,
    ensures
        now < next_daily_spec(now, tod) <= now + SECS_PER_DAY,
{
    let d = SECS_PER_DAY as int;
    vstd::arithmetic::div_mod::lemma_mod_bound(now, d);
}

/// Next occurrence of the daily time of day `tod` strictly after `now`.
pub fn next_daily_occurrence(now: i64, tod: u32) -> (t: i64)
    requires
        0 <= now <= MAX_INSTANT,
        tod < SECS_PER_DAY,
    ensures
        t == next_daily_spec(now as int, tod as int),
        t > now,
        t <= now + SECS_PER_DAY,
        t % (SECS_PER_DAY as i64) == tod,
{
    let rem: i64 = now % (SECS_PER_DAY as i64);
    let day_start: i64 = now - rem;
    let candidate: i64 = day_start + tod as i64;
    let t: i64 = if candidate > now {
        candidate
    } else {
        candidate + SECS_PER_DAY as i64
    };
    proof {
        let d = SECS_PER_DAY as int;
        vstd::arithmetic::div_mod::lemma_fundamental_div_mod(now as int, d);
        let q = now as int / d;
        assert(day_start == d * q);
        if candidate > now {
            vstd::arithmetic::div_mod::lemma_mod_multiples_vanish(q, tod as int, d);
            vstd::arithmetic::div_mod::lemma_small_mod(tod as nat, d as nat);
        } else {
            vstd::arithmetic::div_mod::lemma_mod_multiples_vanish(q + 1, tod as int, d);
            vstd::arithmetic::div_mod::lemma_small_mod(tod as nat, d as nat);
            assert(t == d * (q + 1) + tod);
        }
    }
    t
}

/// Local time of day of the instant `now` under a fixed zone offset:
/// `now + tz_offset_secs`, reduced modulo a day.
pub open spec fn local_tod_spec(now: int, tz_offset_secs: int) -> int {
    (now + tz_offset_secs + SECS_PER_DAY) % (SECS_PER_DAY as int)
}

/// Time of day (seconds since local midnight) of `now` in a zone lying
/// `tz_offset_secs` east of UTC.
pub fn local_time_of_day(now: i64, tz_offset_secs: i32) -> (tod: u32)
    requires
        0 <= now <= MAX_INSTANT,
        -64800 <= tz_offset_secs <= 64800,
    ensures
        tod == local_tod_spec(now as int, tz_offset_secs as int),
        tod < SECS_PER_DAY,
{
    let shifted: i64 = now + tz_offset_secs as i64 + SECS_PER_DAY as i64;
    let r: i64 = shifted % (SECS_PER_DAY as i64);
    r as u32
}

/// Name for what chrono's RFC 3339 parser returns on a text: the encoded
/// instant as epoch seconds, or nothing when the text is not a valid
/// RFC 3339 date-time.
pub uninterp spec fn rfc3339_epoch(s: Seq<char>) -> Option<i64>;

/// Relies on chrono's `DateTime::parse_from_rfc3339`: the parsed instant
/// (taken as epoch seconds) is a function of the text alone.
#[verifier::external_body]
pub(crate) fn parse_rfc3339_epoch(s: &str) -> (r: Option<i64>)
    ensures
        r == rfc3339_epoch(s@),
{
    match chrono::DateTime::parse_from_rfc3339(s) {
        Ok(dt) => Some(dt.timestamp()),
        Err(_) => None,
    }
}

} // verus!
