use enchanting::config::{parse_range, range_setting_or, roll_range, EnchConfig};

#[test]
fn parse_range_single_number() {
    assert_eq!(parse_range("20"), Some(20..=20));
    assert_eq!(parse_range("  7\t"), Some(7..=7));
    assert_eq!(parse_range("0"), Some(0..=0));
    assert_eq!(parse_range("+5"), Some(5..=5));
}

#[test]
fn parse_range_bounds() {
    assert_eq!(parse_range("10..20"), Some(10..=20));
    assert_eq!(parse_range(" 1 .. 3 "), Some(1..=3));
    assert_eq!(parse_range("4..4"), Some(4..=4));
}

#[test]
fn parse_range_rejects_invalid_text() {
    assert_eq!(parse_range(""), None);
    assert_eq!(parse_range("abc"), None);
    assert_eq!(parse_range("-1"), None);
    assert_eq!(parse_range("20..10"), None);
    assert_eq!(parse_range("-3..5"), None);
    assert_eq!(parse_range("..5"), None);
    assert_eq!(parse_range("5.."), None);
    assert_eq!(parse_range("1..2..3"), None);
    assert_eq!(parse_range("3000000000"), None);
    assert_eq!(parse_range("1...3"), None);
}

#[test]
fn parse_range_unicode_white_space() {
    assert_eq!(parse_range("\u{3000}12\u{a0}"), Some(12..=12));
}

#[test]
fn roll_range_single_value() {
    assert_eq!(roll_range(&(20..=20)), 20);
}

#[test]
fn roll_range_stays_within_bounds() {
    for _ in 0..200 {
        let v = roll_range(&(1..=3));
        assert!((1..=3).contains(&v));
    }
}

#[test]
fn config_defaults() {
    let cfg = EnchConfig::default();
    assert_eq!(cfg.attempts_per_day, 20..=20);
    assert_eq!(cfg.safe_level, 3);
    assert_eq!(cfg.chance_min, 5);
    assert_eq!(cfg.chance_max, 100);
    assert_eq!(cfg.bless_amount, 1..=3);
    assert_eq!(cfg.gnomes_min_length, 20);
    assert_eq!(cfg.gnomes_steal, 1..=10);
    assert_eq!(cfg.gnomes_raid_hour_utc, 6);
    assert_eq!(cfg.gnomes_locale, "ru");
}

#[test]
fn parse_range_number_edges() {
    assert_eq!(parse_range("2147483647"), Some(2147483647..=2147483647));
    assert_eq!(parse_range("0..2147483647"), Some(0..=2147483647));
    assert_eq!(parse_range("-0"), Some(0..=0));
    assert_eq!(parse_range("007..0010"), Some(7..=10));
    assert_eq!(parse_range("+"), None);
    assert_eq!(parse_range("1 2"), None);
}

#[test]
fn settings_fall_back_to_the_default() {
    assert_eq!(range_setting_or(None, 1..=3), (1..=3, true));
    assert_eq!(range_setting_or(Some("x"), 1..=3), (1..=3, true));
    assert_eq!(range_setting_or(Some("5..9"), 1..=3), (5..=9, false));
    assert_eq!(range_setting_or(Some("0"), 1..=10), (0..=0, false));
}
