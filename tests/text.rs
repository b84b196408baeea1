use mooncap::clock::{local_now, stamp, ClockTime};
use mooncap::text::{
    format_change, format_dollar, format_percent, format_price, format_whole_dollars, parse_fixed,
    parse_u64, trim,
};

#[test]
fn parse_unsigned() {
    assert_eq!(parse_u64("180"), Some(180));
    assert_eq!(parse_u64("+7"), Some(7));
    assert_eq!(parse_u64("0"), Some(0));
    assert_eq!(parse_u64("18446744073709551615"), Some(u64::MAX));
    assert_eq!(parse_u64("18446744073709551616"), None);
    assert_eq!(parse_u64(""), None);
    assert_eq!(parse_u64("+"), None);
    assert_eq!(parse_u64("-1"), None);
    assert_eq!(parse_u64("1 2"), None);
}

#[test]
fn parse_fixed_point() {
    assert_eq!(parse_fixed("100000", 2), Some(10_000_000));
    assert_eq!(parse_fixed("1.5", 2), Some(150));
    assert_eq!(parse_fixed("1.239", 2), Some(123));
    assert_eq!(parse_fixed(".5", 2), Some(50));
    assert_eq!(parse_fixed("5.", 2), Some(500));
    assert_eq!(parse_fixed("+0.00004200", 10), Some(420_000));
    assert_eq!(parse_fixed(".", 2), None);
    assert_eq!(parse_fixed("1.2.3", 2), None);
    assert_eq!(parse_fixed("-1", 2), None);
    assert_eq!(parse_fixed("abc", 2), None);
    assert_eq!(parse_fixed("184467440737095516.16", 2), None);
}

#[test]
fn trimming() {
    assert_eq!(trim("  a b \t"), "a b");
    assert_eq!(trim("   "), "");
    assert_eq!(trim(""), "");
    assert_eq!(trim("\u{3000}x\u{a0}"), "x");
}

#[test]
fn change_text() {
    assert_eq!(format_change(420), "+4.20%");
    assert_eq!(format_change(0), "+0.00%");
    assert_eq!(format_change(-5), "-0.05%");
    assert_eq!(format_change(-1337), "-13.37%");
}

#[test]
fn dollar_text() {
    assert_eq!(format_dollar(4_200_000), "$42.0K");
    assert_eq!(format_dollar(123_456_789), "$1.23M");
    assert_eq!(format_dollar(99_999), "$999.99");
    assert_eq!(format_dollar(0), "$0.00");
    assert_eq!(format_dollar(100_000), "$1.0K");
}

#[test]
fn price_text() {
    assert_eq!(format_price(420_000), "$0.0000420000");
    assert_eq!(format_price(123_456_789), "$0.012346");
    assert_eq!(format_price(12_345_678_900), "$1.2346");
}

#[test]
fn stamps() {
    assert_eq!(stamp(ClockTime { hour: 7, minute: 5, second: 0 }), "[07:05:00]");
    let now = local_now();
    assert!(now.hour < 24 && now.minute < 60 && now.second < 60);
}

#[test]
fn whole_dollar_text() {
    assert_eq!(format_whole_dollars(12_345_678), "$123457");
    assert_eq!(format_whole_dollars(49), "$0");
    assert_eq!(format_whole_dollars(50), "$1");
}

#[test]
fn percent_text() {
    assert_eq!(format_percent(5000), "50.0%");
    assert_eq!(format_percent(10000), "100.0%");
    assert_eq!(format_percent(4249), "42.5%");
    assert_eq!(format_percent(4244), "42.4%");
}
