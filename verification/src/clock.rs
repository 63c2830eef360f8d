//! Instants, as the rest of the library sees them, and the two calls into
//! `chrono` that turn them into text and into whole days.

use vstd::prelude::*;

verus! {

/// Seconds since the Unix epoch that `DateTime::from_timestamp` accepts:
/// from the first second of year -262143 to the last of year 262142.
pub open spec fn in_time_range(secs: int) -> bool {
    -8_334_601_228_800 <= secs <= 8_210_266_876_799
}

/// The local time `secs` + `utc_offset` falls in years 0 to 9999, the
/// years `%Y` prints with exactly four digits and no sign.
pub open spec fn in_four_digit_years(secs: int, utc_offset: int) -> bool {
    -62_167_219_200 <= secs + utc_offset <= 253_402_300_799
}

/// A day written `YYYY-MM-DD`: ten characters, digits but at positions 4
/// and 7, which hold `-`.
pub open spec fn is_day_text(d: Seq<char>) -> bool {
    &&& d.len() == 10
    &&& forall|i: int|
        0 <= i < 10 ==> if i == 4 || i == 7 {
            #[trigger] d[i] == '-'
        } else {
            '0' <= d[i] && d[i] <= '9'
        }
}

/// A UTC offset that `chrono::FixedOffset` accepts.
pub open spec fn valid_utc_offset(offset: int) -> bool {
    -86_400 < offset < 86_400
}

/// An instant, whole seconds since the Unix epoch, together with the local
/// UTC offset in effect at that instant.
#[derive(Clone, Copy, Debug, PartialEq, Eq)]
pub struct Moment {
    pub secs: i64,
    pub utc_offset: i32,
}

impl Moment {
    pub open spec fn valid(self) -> bool {
        in_time_range(self.secs as int) && valid_utc_offset(self.utc_offset as int)
    }
}

/// The current instant, with its sub-second part.
#[derive(Clone, Copy, Debug, PartialEq, Eq)]
pub struct Now {
    pub secs: i64,
    pub nanos: u32,
    pub utc_offset: i32,
}

impl Now {
    pub open spec fn valid(self) -> bool {
        in_time_range(self.secs as int) && self.nanos < 1_000_000_000 && valid_utc_offset(
            self.utc_offset as int,
        )
    }

    /// The whole-second instant of this moment.
    pub open spec fn moment(self) -> Moment {
        Moment { secs: self.secs, utc_offset: self.utc_offset }
    }

    pub fn to_moment(&self) -> (m: Moment)
        ensures
            m == self.moment(),
    {
        Moment { secs: self.secs, utc_offset: self.utc_offset }
    }
}

/// What `chrono` prints for the instant `secs` seen at UTC offset
/// `utc_offset`, with the strftime pattern `pattern`.
pub uninterp spec fn chrono_formatted(secs: int, utc_offset: int, pattern: Seq<char>) -> Seq<char>;

/// Formats an instant with a strftime pattern, through
/// `DateTime::<FixedOffset>::format`. Of the text it is stated that it is
/// what chrono prints for these arguments and, as chrono's strftime
/// documentation gives (`%Y` zero-padded to four digits for years 0 to
/// 9999, `%m` and `%d` to two), that a day in those years reads
/// `YYYY-MM-DD`; the calendar arithmetic itself is not stated.
#[verifier::external_body]
fn format_moment(secs: i64, utc_offset: i32, pattern: &str) -> (r: String)
    requires
        in_time_range(secs as int),
        valid_utc_offset(utc_offset as int),
        pattern@ == "%Y-%m-%d"@ || pattern@ == "%Y-%m-%d %H:%M"@,
    ensures
        r@ == chrono_formatted(secs as int, utc_offset as int, pattern@),
        pattern@ == "%Y-%m-%d"@ && in_four_digit_years(secs as int, utc_offset as int) ==> is_day_text(r@),
{
    let offset = chrono::FixedOffset::east_opt(utc_offset).unwrap();
    chrono::DateTime::from_timestamp(secs, 0).unwrap().with_timezone(&offset).format(
        pattern,
    ).to_string()
}

/// The local calendar day of an instant, `YYYY-MM-DD`.
pub open spec fn day_text(m: Moment) -> Seq<char> {
    chrono_formatted(m.secs as int, m.utc_offset as int, "%Y-%m-%d"@)
}

/// The local day and minute of an instant, `YYYY-MM-DD HH:MM`.
pub open spec fn minute_text(m: Moment) -> Seq<char> {
    chrono_formatted(m.secs as int, m.utc_offset as int, "%Y-%m-%d %H:%M"@)
}

/// The local calendar day of an instant, `YYYY-MM-DD`.
pub fn format_day(m: Moment) -> (r: String)
    requires
        m.valid(),
    ensures
        r@ == day_text(m),
        in_four_digit_years(m.secs as int, m.utc_offset as int) ==> is_day_text(r@),
{
    format_moment(m.secs, m.utc_offset, "%Y-%m-%d")
}

/// The local day and minute of an instant, `YYYY-MM-DD HH:MM`.
pub fn format_minute(m: Moment) -> (r: String)
    requires
        m.valid(),
    ensures
        r@ == minute_text(m),
{
    format_moment(m.secs, m.utc_offset, "%Y-%m-%d %H:%M")
}

/// Integer division rounding towards zero, as Rust's `/` on `i64`.
pub open spec fn div_toward_zero(a: int, b: int) -> int
    recommends
        b > 0,
{
    if a >= 0 {
        a / b
    } else {
        -((-a) / b)
    }
}

/// Whole days from `since_secs` to the instant `now_secs` + `now_nanos`
/// nanoseconds, counted as `TimeDelta::num_days` counts them: the whole
/// seconds of the difference (rounded towards zero), divided by 86,400
/// rounding towards zero.
pub open spec fn whole_days_between(now_secs: int, now_nanos: int, since_secs: int) -> int {
    let secs = now_secs - since_secs;
    let whole = if secs < 0 && now_nanos > 0 {
        secs + 1
    } else {
        secs
    };
    div_toward_zero(whole, 86_400)
}

/// Whole days elapsed from `since_secs` to `now`, through
/// `DateTime::signed_duration_since` and `TimeDelta::num_days`.
#[verifier::external_body]
pub(crate) fn days_since(now: Now, since_secs: i64) -> (d: i64)
    requires
        now.valid(),
        in_time_range(since_secs as int),
    ensures
        d == whole_days_between(now.secs as int, now.nanos as int, since_secs as int),
{
    let now_dt = chrono::DateTime::from_timestamp(now.secs, now.nanos).unwrap();
    let since_dt = chrono::DateTime::from_timestamp(since_secs, 0).unwrap();
    now_dt.signed_duration_since(since_dt).num_days()
}

} // verus!
