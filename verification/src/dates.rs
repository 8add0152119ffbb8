//! The two textual date/time grammars the pipeline reads: the tag-metadata
//! format `YYYY-MM-DD HH:MM:SS`, and RFC 3339 timestamps, which are
//! normalized to UTC and truncated to whole seconds.

use crate::strutil::{digit_val, is_digit};
use crate::timestamp::{
    date_wf, days_in_month, days_in_month_exec, next_date, next_date_exec, prev_date,
    prev_date_exec, Timestamp,
};
use vstd::prelude::*;
use vstd::string::StrSliceExecFns;

verus! {

/// Both characters at `i` and `i + 1` are decimal digits.
pub open spec fn digits2(s: Seq<char>, i: int) -> bool {
    is_digit(s[i]) && is_digit(s[i + 1])
}

/// The value of the two decimal digits at `i`.
pub open spec fn num2(s: Seq<char>, i: int) -> int {
    digit_val(s[i]) * 10 + digit_val(s[i + 1])
}

/// All four characters at `i` .. `i + 3` are decimal digits.
pub open spec fn digits4(s: Seq<char>, i: int) -> bool {
    digits2(s, i) && digits2(s, i + 2)
}

/// The value of the four decimal digits at `i`.
pub open spec fn num4(s: Seq<char>, i: int) -> int {
    num2(s, i) * 100 + num2(s, i + 2)
}

/// `s` starts with `YYYY-MM-DD` naming a real calendar date.
pub open spec fn date10_ok(s: Seq<char>) -> bool {
    &&& s.len() >= 10
    &&& digits4(s, 0)
    &&& s[4] == '-'
    &&& digits2(s, 5)
    &&& s[7] == '-'
    &&& digits2(s, 8)
    &&& date_wf(num4(s, 0), num2(s, 5), num2(s, 8))
}

/// `s` holds `HH:MM:SS` at index `i`, with fields in range.
pub open spec fn time8_ok(s: Seq<char>, i: int) -> bool {
    &&& s.len() >= i + 8
    &&& digits2(s, i)
    &&& s[i + 2] == ':'
    &&& digits2(s, i + 3)
    &&& s[i + 5] == ':'
    &&& digits2(s, i + 6)
    &&& num2(s, i) <= 23
    &&& num2(s, i + 3) <= 59
    &&& num2(s, i + 6) <= 59
}

/// The tag-metadata date format: exactly `YYYY-MM-DD HH:MM:SS`, naming a real
/// calendar date and time.
pub open spec fn exif_dt_valid(s: Seq<char>) -> bool {
    &&& s.len() == 19
    &&& date10_ok(s)
    &&& s[10] == ' '
    &&& time8_ok(s, 11)
}

/// The timestamp a valid tag-metadata date string denotes.
pub open spec fn exif_dt_value(s: Seq<char>) -> Timestamp {
    Timestamp {
        year: num4(s, 0) as u32,
        month: num2(s, 5) as u32,
        day: num2(s, 8) as u32,
        hour: num2(s, 11) as u32,
        minute: num2(s, 14) as u32,
        second: num2(s, 17) as u32,
    }
}

/// First index at or after `i` whose character is not a decimal digit.
pub open spec fn skip_digits(s: Seq<char>, i: int) -> int
    decreases s.len() - i,
{
    if 0 <= i < s.len() && is_digit(s[i]) {
        skip_digits(s, i + 1)
    } else {
        i
    }
}

/// Index where the time-zone designator begins: right after the seconds, or
/// after an optional fraction introduced by `.`.
pub open spec fn zone_start(s: Seq<char>) -> int {
    if s.len() > 19 && s[19] == '.' {
        skip_digits(s, 20)
    } else {
        19
    }
}

/// A fraction, if present, has at least one digit.
pub open spec fn frac_ok(s: Seq<char>) -> bool {
    s.len() > 19 && s[19] == '.' ==> skip_digits(s, 20) > 20
}

/// The time-zone designator is `Z`/`z`, or `+HH:MM` / `-HH:MM` in range, and
/// ends the string.
pub open spec fn zone_ok(s: Seq<char>) -> bool {
    let j = zone_start(s);
    ||| (j < s.len() && (s[j] == 'Z' || s[j] == 'z') && s.len() == j + 1)
    ||| (s.len() == j + 6 && (s[j] == '+' || s[j] == '-') && digits2(s, j + 1) && s[j + 3] == ':'
        && digits2(s, j + 4) && num2(s, j + 1) <= 23 && num2(s, j + 4) <= 59)
}

/// The offset in seconds east of UTC that the designator names.
pub open spec fn zone_offset(s: Seq<char>) -> int {
    let j = zone_start(s);
    if j < s.len() && (s[j] == '+' || s[j] == '-') {
        let mag = num2(s, j + 1) * 3600 + num2(s, j + 4) * 60;
        if s[j] == '-' {
            -mag
        } else {
            mag
        }
    } else {
        0
    }
}

/// The shape of an RFC 3339 timestamp: date, `T`, time, optional fraction,
/// time-zone designator.
pub open spec fn rfc3339_syntax_ok(s: Seq<char>) -> bool {
    &&& s.len() >= 20
    &&& date10_ok(s)
    &&& (s[10] == 'T' || s[10] == 't')
    &&& time8_ok(s, 11)
    &&& frac_ok(s)
    &&& zone_ok(s)
}

/// The second of the day once the offset is applied; may fall outside
/// 0..86400, in which case the date shifts by one day.
pub open spec fn shifted_tod(s: Seq<char>) -> int {
    num2(s, 11) * 3600 + num2(s, 14) * 60 + num2(s, 17) - zone_offset(s)
}

/// A parseable RFC 3339 timestamp whose UTC reading stays within year
/// 0..=9999.
pub open spec fn rfc3339_valid(s: Seq<char>) -> bool {
    &&& rfc3339_syntax_ok(s)
    &&& (shifted_tod(s) < 0 ==> !(num4(s, 0) == 0 && num2(s, 5) == 1 && num2(s, 8) == 1))
    &&& (shifted_tod(s) >= 86400 ==> !(num4(s, 0) == 9999 && num2(s, 5) == 12 && num2(s, 8)
        == 31))
}

/// A timestamp assembled from a date and a second of the day in 0..86400.
pub open spec fn ts_of_parts(y: int, m: int, d: int, tod: int) -> Timestamp {
    Timestamp {
        year: y as u32,
        month: m as u32,
        day: d as u32,
        hour: (tod / 3600) as u32,
        minute: ((tod % 3600) / 60) as u32,
        second: (tod % 60) as u32,
    }
}

/// The UTC timestamp, truncated to whole seconds, that a valid RFC 3339
/// string denotes.
pub open spec fn rfc3339_value(s: Seq<char>) -> Timestamp {
    let y = num4(s, 0);
    let m = num2(s, 5);
    let d = num2(s, 8);
    let t = shifted_tod(s);
    if t < 0 {
        let p = prev_date(y, m, d);
        ts_of_parts(p.0, p.1, p.2, t + 86400)
    } else if t >= 86400 {
        let n = next_date(y, m, d);
        ts_of_parts(n.0, n.1, n.2, t - 86400)
    } else {
        ts_of_parts(y, m, d, t)
    }
}

/// Reads the two decimal digits at `i`.
fn read2(s: &str, i: usize) -> (r: Option<u32>)
    requires
        i + 2 <= s@.len() <= usize::MAX,
    ensures
        r is Some <==> digits2(s@, i as int),
        r is Some ==> r->0 == num2(s@, i as int),
{
    let av = s.get_char(i) as u32;
    let bv = s.get_char(i + 1) as u32;
    if 48 <= av && av <= 57 && 48 <= bv && bv <= 57 {
        Some((av - 48) * 10 + (bv - 48))
    } else {
        None
    }
}

/// Reads the four decimal digits at `i`.
fn read4(s: &str, i: usize) -> (r: Option<u32>)
    requires
        i + 4 <= s@.len() <= usize::MAX,
    ensures
        r is Some <==> digits4(s@, i as int),
        r is Some ==> r->0 == num4(s@, i as int),
{
    let hi = match read2(s, i) {
        Some(v) => v,
        None => {
            return None;
        },
    };
    let lo = match read2(s, i + 2) {
        Some(v) => v,
        None => {
            return None;
        },
    };
    Some(hi * 100 + lo)
}

/// Parses a tag-metadata date string; `None` exactly when it is not a valid
/// `YYYY-MM-DD HH:MM:SS` date.
pub fn parse_exif_datetime(s: &str) -> (r: Option<Timestamp>)
    ensures
        r is Some <==> exif_dt_valid(s@),
        r is Some ==> r->0 == exif_dt_value(s@) && r->0.wf(),
{
    if s.unicode_len() != 19 {
        return None;
    }
    let y = match read4(s, 0) {
        Some(v) => v,
        None => {
            return None;
        },
    };
    if s.get_char(4) != '-' {
        return None;
    }
    let mo = match read2(s, 5) {
        Some(v) => v,
        None => {
            return None;
        },
    };
    if s.get_char(7) != '-' {
        return None;
    }
    let d = match read2(s, 8) {
        Some(v) => v,
        None => {
            return None;
        },
    };
    if s.get_char(10) != ' ' {
        return None;
    }
    let h = match read2(s, 11) {
        Some(v) => v,
        None => {
            return None;
        },
    };
    if s.get_char(13) != ':' {
        return None;
    }
    let mi = match read2(s, 14) {
        Some(v) => v,
        None => {
            return None;
        },
    };
    if s.get_char(16) != ':' {
        return None;
    }
    let sec = match read2(s, 17) {
        Some(v) => v,
        None => {
            return None;
        },
    };
    if mo < 1 || mo > 12 {
        return None;
    }
    if d < 1 || d > days_in_month_exec(y, mo) {
        return None;
    }
    if h > 23 || mi > 59 || sec > 59 {
        return None;
    }
    Some(Timestamp::new(y, mo, d, h, mi, sec))
}

/// Parses an RFC 3339 timestamp and normalizes it to UTC, truncating any
/// fractional seconds; `None` exactly when the string is not a valid RFC 3339
/// timestamp (or its UTC reading would leave year 0..=9999).
pub fn parse_rfc3339(s: &str) -> (r: Option<Timestamp>)
    ensures
        r is Some <==> rfc3339_valid(s@),
        r is Some ==> r->0 == rfc3339_value(s@) && r->0.wf(),
{
    let n = s.unicode_len();
    if n < 20 {
        return None;
    }
    let y = match read4(s, 0) {
        Some(v) => v,
        None => {
            return None;
        },
    };
    if s.get_char(4) != '-' {
        return None;
    }
    let mo = match read2(s, 5) {
        Some(v) => v,
        None => {
            return None;
        },
    };
    if s.get_char(7) != '-' {
        return None;
    }
    let d = match read2(s, 8) {
        Some(v) => v,
        None => {
            return None;
        },
    };
    if mo < 1 || mo > 12 {
        return None;
    }
    if d < 1 || d > days_in_month_exec(y, mo) {
        return None;
    }
    let tc = s.get_char(10);
    if tc != 'T' && tc != 't' {
        return None;
    }
    let h = match read2(s, 11) {
        Some(v) => v,
        None => {
            return None;
        },
    };
    if s.get_char(13) != ':' {
        return None;
    }
    let mi = match read2(s, 14) {
        Some(v) => v,
        None => {
            return None;
        },
    };
    if s.get_char(16) != ':' {
        return None;
    }
    let sec = match read2(s, 17) {
        Some(v) => v,
        None => {
            return None;
        },
    };
    if h > 23 || mi > 59 || sec > 59 {
        return None;
    }
    let mut j: usize = 19;
    if s.get_char(19) == '.' {
        j = 20;
        while j < n
            invariant
                20 <= j <= n,
                n == s@.len(),
                skip_digits(s@, 20) == skip_digits(s@, j as int),
            ensures
                20 <= j <= n,
                n == s@.len(),
                skip_digits(s@, 20) == skip_digits(s@, j as int),
                j == n || !is_digit(s@[j as int]),
            decreases n - j,
        {
            let cv = s.get_char(j) as u32;
            if !(48 <= cv && cv <= 57) {
                break ;
            }
            j += 1;
        }
        proof {
            assert(skip_digits(s@, j as int) == j);
        }
        if j == 20 {
            return None;
        }
    }
    proof {
        assert(zone_start(s@) == j);
    }
    if j >= n {
        return None;
    }
    let zc = s.get_char(j);
    let off: i32 = if zc == 'Z' || zc == 'z' {
        if j + 1 != n {
            return None;
        }
        0
    } else if zc == '+' || zc == '-' {
        if n - j != 6 {
            return None;
        }
        let oh = match read2(s, j + 1) {
            Some(v) => v,
            None => {
                return None;
            },
        };
        if s.get_char(j + 3) != ':' {
            return None;
        }
        let om = match read2(s, j + 4) {
            Some(v) => v,
            None => {
                return None;
            },
        };
        if oh > 23 || om > 59 {
            return None;
        }
        let mag = (oh * 3600 + om * 60) as i32;
        if zc == '-' {
            -mag
        } else {
            mag
        }
    } else {
        return None;
    };
    let tod: i32 = (h * 3600 + mi * 60 + sec) as i32 - off;
    proof {
        assert(tod == shifted_tod(s@));
        assert(rfc3339_syntax_ok(s@));
    }
    if tod < 0 {
        if y == 0 && mo == 1 && d == 1 {
            return None;
        }
        let p = prev_date_exec(y, mo, d);
        let t = (tod + 86400) as u32;
        Some(Timestamp::new(p.0, p.1, p.2, t / 3600, (t % 3600) / 60, t % 60))
    } else if tod >= 86400 {
        if y == 9999 && mo == 12 && d == 31 {
            return None;
        }
        let nx = next_date_exec(y, mo, d);
        let t = (tod - 86400) as u32;
        Some(Timestamp::new(nx.0, nx.1, nx.2, t / 3600, (t % 3600) / 60, t % 60))
    } else {
        let t = tod as u32;
        Some(Timestamp::new(y, mo, d, t / 3600, (t % 3600) / 60, t % 60))
    }
}

} // verus!
