use link_ear::text::{
    comes_before, contains, decimal_text, hex_text, short_peer, signed_decimal_text,
    two_digits_text,
};
use link_ear::time::{
    duration_micros, format_duration_ms, format_retry_duration, normalize_timestamp_micros, Clock,
    Duration, Moment,
};

#[test]
fn numbers_are_written_in_decimal() {
    assert_eq!(decimal_text(0), "0");
    assert_eq!(decimal_text(9), "9");
    assert_eq!(decimal_text(10), "10");
    assert_eq!(decimal_text(18_446_744_073_709_551_615), "18446744073709551615");
    assert_eq!(decimal_text(u128::MAX), u128::MAX.to_string());
    assert_eq!(signed_decimal_text(i64::MIN), "-9223372036854775808");
    assert_eq!(signed_decimal_text(-1), "-1");
    assert_eq!(signed_decimal_text(42), "42");
    assert_eq!(two_digits_text(7), "07");
    assert_eq!(two_digits_text(59), "59");
}

#[test]
fn digests_are_written_in_hexadecimal() {
    assert_eq!(hex_text(0), "0");
    assert_eq!(hex_text(0xdead_beef), "deadbeef");
    assert_eq!(hex_text(u64::MAX), "ffffffffffffffff");
}

#[test]
fn a_short_peer_has_eight_characters_at_most() {
    assert_eq!(short_peer("12D3KooWCKULvuTT1ZDPW8zZpd215MT1QzoNeTvFbPvzhhGHmyDf"), "12D3KooW");
    assert_eq!(short_peer("12345678"), "12345678");
    assert_eq!(short_peer("abc"), "abc");
    assert_eq!(short_peer(""), "");
    assert_eq!(short_peer("äöüßäöüßäöüß"), "äöüßäöüß");
}

#[test]
fn texts_are_ordered_as_strings_are() {
    let words = ["", "a", "ab", "b", "Z", "ä", "日本", "\u{10000}", "\u{ffff}", "a\u{0}"];
    for a in words {
        for b in words {
            assert_eq!(comes_before(a, b), a < b, "{a:?} {b:?}");
        }
    }
}

#[test]
fn a_part_of_a_text_is_found() {
    assert!(contains("/ip6/::1/tcp/1", "/ip6/"));
    assert!(!contains("/ip4/1.2.3.4/tcp/1", "/ip6/"));
    assert!(contains("abc", ""));
    assert!(!contains("ab", "abc"));
    assert!(contains("aab", "ab"));
}

#[test]
fn waits_are_written_in_seconds_and_minutes() {
    assert_eq!(format_retry_duration(Duration::from_secs(0)), "0s");
    assert_eq!(format_retry_duration(Duration::from_secs(59)), "59s");
    assert_eq!(format_retry_duration(Duration::from_secs(60)), "1m");
    assert_eq!(format_retry_duration(Duration::from_secs(61)), "1m 1s");
    assert_eq!(format_retry_duration(Duration::from_secs(600)), "10m");
    assert_eq!(format_retry_duration(Duration::from_millis(5_999)), "5s");
}

#[test]
fn playing_times_are_written_in_minutes_and_seconds() {
    assert_eq!(format_duration_ms(0), "0:00");
    assert_eq!(format_duration_ms(999), "0:00");
    assert_eq!(format_duration_ms(61_000), "1:01");
    assert_eq!(format_duration_ms(3_600_000), "60:00");
}

#[test]
fn durations_are_counted_in_microseconds() {
    assert_eq!(duration_micros(Duration::from_millis(1_500)), 1_500_000);
    assert_eq!(duration_micros(Duration::from_nanos(1_999)), 1);
    assert_eq!(duration_micros(Duration::from_secs(u64::MAX)), i64::MAX);
    assert_eq!(Duration::from_millis(1_500).as_secs(), 1);
    assert_eq!(Duration::from_millis(1_500).as_micros(), 1_500_000);
}

#[test]
fn timestamps_are_brought_to_microseconds() {
    assert_eq!(normalize_timestamp_micros(1_700_000_000), 1_700_000_000_000_000);
    assert_eq!(normalize_timestamp_micros(1_700_000_000_000), 1_700_000_000_000_000);
    assert_eq!(normalize_timestamp_micros(1_700_000_000_000_000), 1_700_000_000_000_000);
    assert_eq!(normalize_timestamp_micros(-1), -1_000_000);
    assert_eq!(normalize_timestamp_micros(i64::MAX), i64::MAX);
    assert_eq!(normalize_timestamp_micros(i64::MIN), i64::MIN);
}

#[test]
fn moments_near_the_end_of_the_clocks_are_refused() {
    assert_eq!(
        Moment::from_readings(5, 7),
        Some(Moment { wall_micros: 5, mono_nanos: 7 })
    );
    assert_eq!(Moment::from_readings(i64::MAX, 0), None);
    assert_eq!(Moment::from_readings(0, u64::MAX as u128), None);
    assert_eq!(Moment::from_readings(0, u128::MAX), None);
}

#[test]
fn the_clocks_go_forward() {
    let clock = Clock::start();
    let first = clock.read().unwrap();
    let second = clock.read().unwrap();
    assert!(first.mono_nanos <= second.mono_nanos);
    // 2020-01-01 in microseconds: the wall clock counts from the epoch in that unit.
    assert!(first.wall_micros > 1_577_836_800_000_000);
    assert!(first.wall_micros < 10 * 1_577_836_800_000_000);
}
