use sanitarr::logging::{LevelFilter, LoggingSettings};
use sanitarr::text::{join, render_decimal, render_signed, render_two_digits, split};
use std::str::FromStr;

#[test]
fn test_deser_single_log_level() {
    let raw_str = "debug";
    let settings = LoggingSettings::from_str(raw_str).unwrap();
    assert_eq!(settings.root_level, LevelFilter::Debug);
    assert!(settings.other_levels.is_empty());
}

#[test]
fn test_deser_extra_log_levels() {
    let raw_str = "off,sanitarr=debug,reqwest=info";
    let settings = LoggingSettings::from_str(raw_str).unwrap();

    assert_eq!(settings.root_level, LevelFilter::Off);
    assert_eq!(settings.other_levels.len(), 2);

    let (log_target_one, level_one) = &settings.other_levels[0];
    assert_eq!(log_target_one, "sanitarr");
    assert_eq!(level_one, &LevelFilter::Debug);

    let (log_target_two, level_two) = &settings.other_levels[1];
    assert_eq!(log_target_two, "reqwest");
    assert_eq!(level_two, &LevelFilter::Info);
}

#[test]
fn default_settings() {
    let settings = LoggingSettings::default();
    assert_eq!(settings.root_level, LevelFilter::Info);
    assert!(settings.other_levels.is_empty());
}

#[test]
fn levels_by_name() {
    assert_eq!(LoggingSettings::level("off"), LevelFilter::Off);
    assert_eq!(LoggingSettings::level("ERROR"), LevelFilter::Error);
    assert_eq!(LoggingSettings::level("Warn"), LevelFilter::Warn);
    assert_eq!(LoggingSettings::level("info"), LevelFilter::Info);
    assert_eq!(LoggingSettings::level("dEbUg"), LevelFilter::Debug);
    assert_eq!(LoggingSettings::level("trace"), LevelFilter::Trace);
    // anything else is the default level
    assert_eq!(LoggingSettings::level(""), LevelFilter::Info);
    assert_eq!(LoggingSettings::level("warning"), LevelFilter::Info);
    assert_eq!(LoggingSettings::level(" trace"), LevelFilter::Info);
}

#[test]
fn settings_that_are_not_well_formed_are_read_all_the_same() {
    let settings = LoggingSettings::parse("");
    assert_eq!(settings.root_level, LevelFilter::Info);
    assert!(settings.other_levels.is_empty());

    let settings = LoggingSettings::parse("nonsense,a=trace,b,c=,=warn,d=error=off,,e=loud");
    assert_eq!(settings.root_level, LevelFilter::Info);
    assert_eq!(
        settings.other_levels,
        vec![
            ("a".to_string(), LevelFilter::Trace),
            ("c".to_string(), LevelFilter::Info),
            ("".to_string(), LevelFilter::Warn),
            ("d".to_string(), LevelFilter::Error),
            ("e".to_string(), LevelFilter::Info),
        ]
    );
    let settings = LoggingSettings::parse("off,sanitarr::http=info,sanitarr::services=debug");
    assert_eq!(settings.root_level, LevelFilter::Off);
    assert_eq!(settings.other_levels[0].0, "sanitarr::http");
}

#[test]
fn splitting() {
    assert_eq!(split("", ','), vec![""]);
    assert_eq!(split("a", ','), vec!["a"]);
    assert_eq!(split("a,b", ','), vec!["a", "b"]);
    assert_eq!(split(",a,,b,", ','), vec!["", "a", "", "b", ""]);
    assert_eq!(split("ä=ö", '='), vec!["ä", "ö"]);
}

#[test]
fn rendering_numbers() {
    assert_eq!(render_decimal(0), "0");
    assert_eq!(render_decimal(9), "9");
    assert_eq!(render_decimal(10), "10");
    assert_eq!(render_decimal(1234567890), "1234567890");
    assert_eq!(render_decimal(u64::MAX), "18446744073709551615");
    assert_eq!(render_two_digits(0), "00");
    assert_eq!(render_two_digits(7), "07");
    assert_eq!(render_two_digits(10), "10");
    assert_eq!(render_two_digits(u32::MAX), "4294967295");
    assert_eq!(render_signed(0), "0");
    assert_eq!(render_signed(-7), "-7");
    assert_eq!(render_signed(i64::MAX), "9223372036854775807");
    assert_eq!(join(&[], ", "), "");
    assert_eq!(join(&["a".to_string()], ", "), "a");
    assert_eq!(join(&["a".to_string(), "b".to_string()], ", "), "a, b");
}
