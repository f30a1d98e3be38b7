use vstd::prelude::*;
use vstd::string::*;
use crate::error::RequestError;
use crate::text::{all_digits, digit_of, digits_value, is_digit, lemma_digits_prefix_le};

verus! {

/// The units in which a lookback is written.
#[derive(Clone, Copy, Debug, PartialEq, Eq, Structural)]
pub enum TimeUnit {
    Hour,
    Day,
    Week,
}

pub const MILLIS_PER_HOUR: i64 = 3_600_000;

pub const MILLIS_PER_DAY: i64 = 86_400_000;

pub const MILLIS_PER_WEEK: i64 = 604_800_000;

/// The lookback used when no token is given: twenty days.
pub const DEFAULT_LOOKBACK_MILLIS: i64 = 1_728_000_000;

/// The length of one unit in milliseconds.
pub open spec fn unit_millis(u: TimeUnit) -> int {
    match u {
        TimeUnit::Hour => 3_600_000,
        TimeUnit::Day => 86_400_000,
        TimeUnit::Week => 604_800_000,
    }
}

/// The unit that a token's first character names.
pub open spec fn unit_of(c: char) -> Option<TimeUnit> {
    if c == 'h' {
        Some(TimeUnit::Hour)
    } else if c == 'd' {
        Some(TimeUnit::Day)
    } else if c == 'w' {
        Some(TimeUnit::Week)
    } else {
        None
    }
}

/// A token is a unit letter, a colon and at least one decimal digit.
pub open spec fn well_formed_token(t: Seq<char>) -> bool {
    &&& t.len() >= 3
    &&& unit_of(t[0]) is Some
    &&& t[1] == ':'
    &&& all_digits(t.subrange(2, t.len() as int))
}

/// The lookback that a well-formed token asks for, in milliseconds.
pub open spec fn token_lookback(t: Seq<char>) -> int {
    digits_value(t.subrange(2, t.len() as int)) * unit_millis(unit_of(t[0])->0)
}

/// The instant `lookback` milliseconds before `now`, where it can be held.
pub open spec fn start_at(now: int, lookback: int) -> Result<i64, RequestError> {
    if now - lookback >= i64::MIN {
        Ok((now - lookback) as i64)
    } else {
        Err(RequestError::InvalidTimeToken)
    }
}

/// The start of the window that `token` asks for, counted back from `now`.
pub open spec fn resolved_start(now: int, t: Seq<char>) -> Result<i64, RequestError> {
    if well_formed_token(t) {
        start_at(now, token_lookback(t))
    } else {
        Err(RequestError::InvalidTimeToken)
    }
}

/// A unit letter, a colon and the digits of N ask for the instant N units
/// before `now`: N hours for `h`, N times 24 hours for `d`, N times 168 hours
/// for `w`.
pub proof fn lemma_start_of_token(now: int, letter: char, digits: Seq<char>)
    requires
        unit_of(letter) is Some,
        digits.len() >= 1,
        all_digits(digits),
    ensures
        well_formed_token(seq![letter, ':'] + digits),
        resolved_start(now, seq![letter, ':'] + digits) == start_at(
            now,
            digits_value(digits) * unit_millis(unit_of(letter)->0),
        ),
        unit_millis(TimeUnit::Day) == 24 * unit_millis(TimeUnit::Hour),
        unit_millis(TimeUnit::Week) == 168 * unit_millis(TimeUnit::Hour),
{
    let token = seq![letter, ':'] + digits;
    assert(token.subrange(2, token.len() as int) =~= digits);
    assert(token[0] == letter && token[1] == ':');
}

/// A token that is not a unit letter, a colon and digits is refused,
/// whatever the time.
pub proof fn lemma_malformed_token_is_refused(now: int, token: Seq<char>)
    requires
        !well_formed_token(token),
    ensures
        resolved_start(now, token) == Err::<i64, RequestError>(RequestError::InvalidTimeToken),
{
}

/// The current time in milliseconds since the epoch, read through
/// `chrono::Utc::now` and `DateTime::timestamp_millis`. Nothing is claimed of
/// the value: it is whatever the clock says.
#[verifier::external_body]
pub(crate) fn current_time() -> (now: i64) {
    chrono::Utc::now().timestamp_millis()
}

/// Recognises the unit letter of a token.
pub fn parse_unit(c: char) -> (r: Option<TimeUnit>)
    ensures
        r == unit_of(c),
{
    if c == 'h' {
        Some(TimeUnit::Hour)
    } else if c == 'd' {
        Some(TimeUnit::Day)
    } else if c == 'w' {
        Some(TimeUnit::Week)
    } else {
        None
    }
}

/// The length of one unit in milliseconds.
pub fn millis_per(u: TimeUnit) -> (r: i64)
    ensures
        r == unit_millis(u),
{
    match u {
        TimeUnit::Hour => MILLIS_PER_HOUR,
        TimeUnit::Day => MILLIS_PER_DAY,
        TimeUnit::Week => MILLIS_PER_WEEK,
    }
}

/// The start used when no token is given: twenty days before `now`.
pub fn default_start(now: i64) -> (r: Result<i64, RequestError>)
    ensures
        r == start_at(now as int, DEFAULT_LOOKBACK_MILLIS as int),
{
    match now.checked_sub(DEFAULT_LOOKBACK_MILLIS) {
        Some(v) => Ok(v),
        None => Err(RequestError::InvalidTimeToken),
    }
}

/// Resolves a relative-time token against `now`, both in milliseconds since
/// the epoch: `"d:N"`, `"h:N"` and `"w:N"` give the instant N days, hours or
/// weeks before `now`. Any other token, and one whose start lies before the
/// earliest instant an `i64` can hold, is refused.
pub fn resolve_start(now: i64, token: &str) -> (r: Result<i64, RequestError>)
    ensures
        r == resolved_start(now as int, token@),
{
    let n = token.unicode_len();
    if n < 3 {
        return Err(RequestError::InvalidTimeToken);
    }
    let unit = match parse_unit(token.get_char(0)) {
        Some(u) => u,
        None => {
            return Err(RequestError::InvalidTimeToken);
        },
    };
    if token.get_char(1) != ':' {
        return Err(RequestError::InvalidTimeToken);
    }
    let per: i128 = millis_per(unit) as i128;
    let room: i128 = now as i128 - i64::MIN as i128;
    let ghost digits = token@.subrange(2, n as int);
    let mut amount: i128 = 0;
    let mut i: usize = 2;
    while i < n
        invariant
            2 <= i <= n,
            n == token@.len(),
            digits == token@.subrange(2, n as int),
            all_digits(digits.subrange(0, i - 2)),
            amount == digits_value(digits.subrange(0, i - 2)),
            0 <= amount * per <= room,
            0 <= amount,
            per == unit_millis(unit),
            unit_of(token@[0]) == Some(unit),
            token@[1] == ':',
            room == now - i64::MIN,
        decreases n - i,
    {
        let c = token.get_char(i);
        if !(c >= '0' && c <= '9') {
            proof {
                assert(digits[i - 2] == c);
                assert(!all_digits(digits));
            }
            return Err(RequestError::InvalidTimeToken);
        }
        let d = digit_of(c);
        proof {
            let longer = digits.subrange(0, i - 1);
            assert(longer.drop_last() =~= digits.subrange(0, i - 2));
            assert(longer.last() == c);
            assert(all_digits(longer)) by {
                assert forall|j: int| 0 <= j < longer.len() implies is_digit(
                    #[trigger] longer[j],
                ) by {
                    if j < i - 2 {
                        assert(longer[j] == digits.subrange(0, i - 2)[j]);
                    }
                }
            }
            assert(amount <= room) by (nonlinear_arith)
                requires
                    0 <= amount,
                    amount * per <= room,
                    per >= 1,
            ;
        }
        let next: i128 = amount * 10 + d as i128;
        proof {
            assert(next == digits_value(digits.subrange(0, i - 1)));
            assert(next * per <= (room * 10 + 9) * per) by (nonlinear_arith)
                requires
                    0 <= next <= room * 10 + 9,
                    per >= 1,
            ;
            assert((room * 10 + 9) * per <= (u64::MAX * 10 + 9) * 604_800_000) by (nonlinear_arith)
                requires
                    0 <= room <= u64::MAX,
                    1 <= per <= 604_800_000,
            ;
            assert(0 <= next * per) by (nonlinear_arith)
                requires
                    0 <= next,
                    per >= 1,
            ;
        }
        if next * per > room {
            proof {
                if all_digits(digits) {
                    lemma_digits_prefix_le(digits, i - 1);
                    assert(digits_value(digits) * per >= next * per) by (nonlinear_arith)
                        requires
                            digits_value(digits) >= next,
                            per >= 1,
                    ;
                    assert(token_lookback(token@) > room);
                }
            }
            return Err(RequestError::InvalidTimeToken);
        }
        amount = next;
        i = i + 1;
    }
    proof {
        assert(digits.subrange(0, n - 2) =~= digits);
    }
    Ok((room - amount * per + i64::MIN as i128) as i64)
}

/// What `start_time_parse` gives for a token when the clock reads `now`.
pub open spec fn parsed_start(now: int, t: Seq<char>) -> Result<Option<i64>, RequestError> {
    match resolved_start(now, t) {
        Ok(v) => Ok(Some(v)),
        Err(e) => Err(e),
    }
}

/// Resolves an optional relative-time token against the clock. No token gives
/// no start; the caller then falls back to `default_start`. A token gives
/// what `resolve_start` gives for it at the time that the clock reads, so a
/// token that is not well formed is refused whatever the time.
pub fn start_time_parse(start_time: Option<&String>) -> (r: Result<Option<i64>, RequestError>)
    ensures
        start_time is None ==> r == Ok::<Option<i64>, RequestError>(None),
        start_time matches Some(t) ==> exists|now: i64| r == parsed_start(now as int, t@),
        start_time matches Some(t) ==> !well_formed_token(t@) ==> r == Err::<
            Option<i64>,
            RequestError,
        >(RequestError::InvalidTimeToken),
{
    match start_time {
        None => Ok(None),
        Some(t) => {
            let now = current_time();
            let r = match resolve_start(now, t.as_str()) {
                Ok(v) => Ok(Some(v)),
                Err(e) => Err(e),
            };
            assert(r == parsed_start(now as int, t@));
            r
        },
    }
}

} // verus!
