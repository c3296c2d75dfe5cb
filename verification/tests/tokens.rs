use ui::tokens::format_tokens;

#[test]
fn format_tokens_scale() {
    assert_eq!(format_tokens(500), "500");
    assert_eq!(format_tokens(1_000), "1K");
    assert_eq!(format_tokens(42_000), "42K");
    assert_eq!(format_tokens(200_000), "200K");
    assert_eq!(format_tokens(1_000_000), "1M");
    assert_eq!(format_tokens(1_200_000), "1.2M");
    assert_eq!(format_tokens(2_000_000), "2M");
}

#[test]
fn small_counts_are_exact() {
    assert_eq!(format_tokens(0), "0");
    assert_eq!(format_tokens(7), "7");
    assert_eq!(format_tokens(999), "999");
}

#[test]
fn one_rounded_decimal_and_no_trailing_zero() {
    assert_eq!(format_tokens(13_667), "13.7K");
    assert_eq!(format_tokens(1_049), "1K");
    assert_eq!(format_tokens(1_051), "1.1K");
    assert_eq!(format_tokens(1_949), "1.9K");
    assert_eq!(format_tokens(1_951), "2K");
    assert_eq!(format_tokens(1_999_999), "2M");
}

#[test]
fn quarter_units_take_the_even_tenth() {
    assert_eq!(format_tokens(1_250), "1.2K");
    assert_eq!(format_tokens(1_750), "1.8K");
    assert_eq!(format_tokens(1_250_000), "1.2M");
    assert_eq!(format_tokens(3_750_000), "3.8M");
    assert_eq!(format_tokens(1_251), "1.3K");
}

#[test]
fn thousands_can_round_up_to_a_thousand_k() {
    assert_eq!(format_tokens(999_949), "999.9K");
    assert_eq!(format_tokens(999_951), "1000K");
    assert_eq!(format_tokens(999_999), "1000K");
}

#[test]
fn largest_count_does_not_overflow() {
    assert_eq!(format_tokens(u64::MAX), "18446744073709.6M");
}
