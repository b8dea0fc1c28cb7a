//! The second-granularity timestamp that names result files and stamps the
//! aggregate: `YYYY-MM-DD_HH:MM:SS`, every field zero-padded.

use vstd::prelude::*;
use vstd::string::StringExecFns;
use chrono::Datelike;
use chrono::Timelike;

verus! {

/// The decimal digit character for one digit value.
pub open spec fn dchar(d: int) -> char {
    if d == 0 {
        '0'
    } else if d == 1 {
        '1'
    } else if d == 2 {
        '2'
    } else if d == 3 {
        '3'
    } else if d == 4 {
        '4'
    } else if d == 5 {
        '5'
    } else if d == 6 {
        '6'
    } else if d == 7 {
        '7'
    } else if d == 8 {
        '8'
    } else {
        '9'
    }
}

/// A two-digit zero-padded decimal rendering.
pub open spec fn two_digits(x: int) -> Seq<char> {
    seq![dchar(x / 10), dchar(x % 10)]
}

/// A four-digit zero-padded decimal rendering.
pub open spec fn four_digits(x: int) -> Seq<char> {
    two_digits(x / 100) + two_digits(x % 100)
}

/// The characters of one timestamp.
pub open spec fn timestamp_chars(y: int, mo: int, d: int, h: int, mi: int, s: int) -> Seq<char> {
    four_digits(y) + "-"@ + two_digits(mo) + "-"@ + two_digits(d) + "_"@ + two_digits(h) + ":"@
        + two_digits(mi) + ":"@ + two_digits(s)
}

/// A text is a timestamp when some in-range calendar fields render to it.
pub open spec fn is_timestamp(t: Seq<char>) -> bool {
    exists|p: (int, int, int, int, int, int)|
        0 <= p.0 <= 9999 && 0 <= p.1 <= 99 && 0 <= p.2 <= 99 && 0 <= p.3 <= 99 && 0 <= p.4 <= 99
            && 0 <= p.5 <= 99 && t == timestamp_chars(p.0, p.1, p.2, p.3, p.4, p.5)
}

fn digit_str(x: u32) -> (r: &'static str)
    requires
        x <= 9,
    ensures
        r@ =~= seq![dchar(x as int)],
{
    proof {
        reveal_strlit("0");
        reveal_strlit("1");
        reveal_strlit("2");
        reveal_strlit("3");
        reveal_strlit("4");
        reveal_strlit("5");
        reveal_strlit("6");
        reveal_strlit("7");
        reveal_strlit("8");
        reveal_strlit("9");
    }
    match x {
        0 => "0",
        1 => "1",
        2 => "2",
        3 => "3",
        4 => "4",
        5 => "5",
        6 => "6",
        7 => "7",
        8 => "8",
        _ => "9",
    }
}

fn push_two(out: &mut String, x: u32)
    requires
        x <= 99,
    ensures
        final(out)@ == old(out)@ + two_digits(x as int),
{
    out.append(digit_str(x / 10));
    out.append(digit_str(x % 10));
    assert(final(out)@ =~= old(out)@ + two_digits(x as int));
}

/// Renders calendar fields as a zero-padded second-granularity timestamp.
pub fn format_timestamp(y: u32, mo: u32, d: u32, h: u32, mi: u32, s: u32) -> (r: String)
    requires
        y <= 9999,
        mo <= 99,
        d <= 99,
        h <= 99,
        mi <= 99,
        s <= 99,
    ensures
        r@ == timestamp_chars(y as int, mo as int, d as int, h as int, mi as int, s as int),
        is_timestamp(r@),
{
    let mut out = String::new();
    push_two(&mut out, y / 100);
    push_two(&mut out, y % 100);
    out.append("-");
    push_two(&mut out, mo);
    out.append("-");
    push_two(&mut out, d);
    out.append("_");
    push_two(&mut out, h);
    out.append(":");
    push_two(&mut out, mi);
    out.append(":");
    push_two(&mut out, s);
    proof {
        assert(out@ =~= timestamp_chars(
            y as int,
            mo as int,
            d as int,
            h as int,
            mi as int,
            s as int,
        ));
        let p = (y as int, mo as int, d as int, h as int, mi as int, s as int);
        assert(out@ == timestamp_chars(p.0, p.1, p.2, p.3, p.4, p.5));
    }
    out
}

/// Relies on `std::time::SystemTime::now` / `duration_since`,
/// `chrono::DateTime::from_timestamp` and the `Datelike` / `Timelike`
/// accessors: the current UTC calendar fields as plain integers, with the
/// documented field ranges. A clock before the epoch, or out of chrono's
/// range, falls back to the epoch rather than aborting.
#[verifier::external_body]
fn utc_now_fields() -> (r: (i32, u32, u32, u32, u32, u32))
    ensures
        1 <= r.1 <= 12,
        1 <= r.2 <= 31,
        r.3 <= 23,
        r.4 <= 59,
        r.5 <= 59,
{
    let secs: i64 = match std::time::SystemTime::now().duration_since(std::time::UNIX_EPOCH) {
        Ok(d) => d.as_secs() as i64,
        Err(_) => 0,
    };
    let t = match chrono::DateTime::from_timestamp(secs, 0) {
        Some(t) => t,
        None => chrono::DateTime::UNIX_EPOCH,
    };
    (t.year(), t.month(), t.day(), t.hour(), t.minute(), t.second())
}

/// The current UTC time, rendered at second granularity. Years outside the
/// four-digit range are pinned to that range's nearest end.
pub fn current_timestamp() -> (r: String)
    ensures
        is_timestamp(r@),
{
    let (y, mo, d, h, mi, s) = utc_now_fields();
    let yc: u32 = if y < 0 {
        0
    } else if y > 9999 {
        9999
    } else {
        y as u32
    };
    format_timestamp(yc, mo, d, h, mi, s)
}

} // verus!
