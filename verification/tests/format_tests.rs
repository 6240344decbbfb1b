use purgebot::strutil::{i64_string, trim_str, u64_string};
use purgebot::timefmt::duration_string;

#[test]
fn decimal_rendering() {
    assert_eq!(u64_string(0), "0");
    assert_eq!(u64_string(7), "7");
    assert_eq!(u64_string(120), "120");
    assert_eq!(u64_string(u64::MAX), "18446744073709551615");
    assert_eq!(i64_string(0), "0");
    assert_eq!(i64_string(-5), "-5");
    assert_eq!(i64_string(i64::MIN), "-9223372036854775808");
}

#[test]
fn trimming_matches_std() {
    for s in ["", "  ", "a", " a ", "\t x y \n", "\u{a0}z\u{3000}", "no-trim"] {
        assert_eq!(trim_str(s), s.trim(), "input {:?}", s);
    }
}

#[test]
fn duration_components() {
    assert_eq!(duration_string(0), "0 seconds");
    assert_eq!(duration_string(15), "15 seconds");
    assert_eq!(duration_string(90), "1 minutes, 30 seconds");
    assert_eq!(duration_string(3600), "1 hours, 0 seconds");
    // One of each unit: a week, a day, an hour, a minute and a second.
    assert_eq!(duration_string(694861), "1 weeks, 1 days, 1 hours, 1 minutes, 1 seconds");
    // Negative durations show each non-zero component negated.
    assert_eq!(duration_string(-90), "-1 minutes, -30 seconds");
}

#[test]
fn zero_components_are_omitted() {
    // Exactly one week: days, hours and minutes vanish, seconds remain.
    assert_eq!(duration_string(604800), "1 weeks, 0 seconds");
}
