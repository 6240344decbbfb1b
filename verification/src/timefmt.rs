//! Rendering of times for user-facing replies: an elapsed-time formatter
//! (weeks down to seconds, zero components omitted) and an RFC 2822 date
//! renderer delegated to chrono.

use vstd::prelude::*;
use vstd::string::*;

use crate::strutil::{i64_string, signed_decimal_chars};

verus! {

/// `x` with the sign of the original duration re-applied: component values
/// are computed on the magnitude, and negative durations show each non-zero
/// component negated, as signed truncating division would produce.
pub open spec fn sgn(neg: bool, x: int) -> int {
    if neg {
        -x
    } else {
        x
    }
}

/// One rendered component: the signed value followed by its unit label, or
/// nothing when the value is zero.
pub open spec fn unit_part(neg: bool, x: int, unit: Seq<char>) -> Seq<char> {
    if x != 0 {
        signed_decimal_chars(sgn(neg, x)) + unit
    } else {
        Seq::<char>::empty()
    }
}

/// The elapsed-time rendering of a duration of `secs` seconds: week, day,
/// hour and minute components when non-zero, each with a trailing separator,
/// then the seconds component, always present.
pub open spec fn duration_chars(secs: int) -> Seq<char> {
    let neg = secs < 0;
    let mag = if secs < 0 {
        -secs
    } else {
        secs
    };
    unit_part(neg, mag / 604800, " weeks, "@) + unit_part(neg, (mag / 86400) % 7, " days, "@)
        + unit_part(neg, (mag / 3600) % 24, " hours, "@) + unit_part(
        neg,
        (mag / 60) % 60,
        " minutes, "@,
    ) + signed_decimal_chars(sgn(neg, mag % 60)) + " seconds"@
}

fn component_string(neg: bool, x: u64) -> (r: String)
    requires
        x <= i64::MAX,
    ensures
        r@ == signed_decimal_chars(sgn(neg, x as int)),
{
    let v: i64 = if neg {
        -(x as i64)
    } else {
        x as i64
    };
    i64_string(v)
}

/// Renders a duration of `secs` seconds in words, e.g.
/// `1 weeks, 2 days, 3 minutes, 4 seconds`.
#[verifier::rlimit(50)]
pub fn duration_string(secs: i64) -> (r: String)
    ensures
        r@ == duration_chars(secs as int),
{
    let neg = secs < 0;
    let mag: u64 = if secs == i64::MIN {
        9223372036854775808
    } else if neg {
        (-secs) as u64
    } else {
        secs as u64
    };
    let w: u64 = mag / 604800;
    let d: u64 = (mag / 86400) % 7;
    let h: u64 = (mag / 3600) % 24;
    let m: u64 = (mag / 60) % 60;
    let s: u64 = mag % 60;
    let ghost pw = unit_part(neg, w as int, " weeks, "@);
    let ghost pd = unit_part(neg, d as int, " days, "@);
    let ghost ph = unit_part(neg, h as int, " hours, "@);
    let ghost pm = unit_part(neg, m as int, " minutes, "@);
    let mut out = String::new();
    if w != 0 {
        out.append(component_string(neg, w).as_str());
        out.append(" weeks, ");
    }
    proof {
        reveal_strlit(" weeks, ");
        assert(out@ =~= pw);
    }
    if d != 0 {
        out.append(component_string(neg, d).as_str());
        out.append(" days, ");
    }
    proof {
        reveal_strlit(" days, ");
        assert(out@ =~= pw + pd);
    }
    if h != 0 {
        out.append(component_string(neg, h).as_str());
        out.append(" hours, ");
    }
    proof {
        reveal_strlit(" hours, ");
        assert(out@ =~= pw + pd + ph);
    }
    if m != 0 {
        out.append(component_string(neg, m).as_str());
        out.append(" minutes, ");
    }
    proof {
        reveal_strlit(" minutes, ");
        assert(out@ =~= pw + pd + ph + pm);
    }
    out.append(component_string(neg, s).as_str());
    out.append(" seconds");
    proof {
        reveal_strlit(" seconds");
        assert(out@ =~= pw + pd + ph + pm + signed_decimal_chars(sgn(neg, s as int))
            + " seconds"@);
        assert(out@ =~= duration_chars(secs as int));
    }
    out
}

/// The RFC 2822 rendering of a unix timestamp, e.g.
/// `Thu, 1 Jan 1970 00:00:00 +0000`; a function of the timestamp alone.
pub uninterp spec fn rfc2822_of(secs: int) -> Seq<char>;

/// Timestamps the RFC 2822 renderer accepts: years 1970 through 9999.
pub open spec fn valid_timestamp(secs: int) -> bool {
    0 <= secs < 253402300800
}

/// Relies on chrono: `DateTime::<Utc>::from_timestamp(secs, 0)` is `Some` for
/// every timestamp up to year 9999, and `to_rfc2822` renders the resulting
/// date, panicking only on years outside 0..=9999; the rendering depends on
/// the timestamp alone.
#[verifier::external_body]
pub(crate) fn rfc2822_utc(secs: i64) -> (r: String)
    requires
        valid_timestamp(secs as int),
    ensures
        r@ == rfc2822_of(secs as int),
{
    chrono::DateTime::<chrono::Utc>::from_timestamp(secs, 0).unwrap().to_rfc2822()
}

} // verus!
