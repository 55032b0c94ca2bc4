use sanitarr::cleaners::utils::{retention_str, suffix};
use sanitarr::jellyfin::{Item, ItemUserData};
use sanitarr::retention::{
    item_verdict, max_last_played, retain_eligible, retain_eligible_now, verdict, Verdict,
};
use sanitarr::time::{is_expired, retention_date, RetentionPeriod, Timestamp};
use std::time::Duration;

fn stamp(at: chrono::DateTime<chrono::Utc>) -> Timestamp {
    Timestamp::new(at.timestamp(), at.timestamp_subsec_nanos())
}

#[test]
fn test_retention_str_less_than_zero() {
    let retention = stamp(chrono::Utc::now());
    let last_played = stamp(chrono::Utc::now() - Duration::from_secs(3600));
    assert_eq!(retention_str(&last_played, &retention), "0");
}

#[test]
fn test_retention_str_one_day() {
    let retention = stamp(chrono::Utc::now() - Duration::from_secs(60 * 60 * 24 + 300));
    let last_played = stamp(chrono::Utc::now());
    assert_eq!(retention_str(&last_played, &retention), "1 day");
}

#[test]
fn test_retention_str_days() {
    let retention = stamp(chrono::Utc::now() - Duration::from_secs(60 * 60 * 24 * 3 + 300));
    let last_played = stamp(chrono::Utc::now());
    assert_eq!(retention_str(&last_played, &retention), "3 days");
}

#[test]
fn test_retention_str_one_hour() {
    let retention = stamp(chrono::Utc::now() - Duration::from_secs(60 * 60));
    let last_played = stamp(chrono::Utc::now());
    assert_eq!(retention_str(&last_played, &retention), "1 hour");
}

#[test]
fn test_retention_str_hours() {
    let retention = stamp(chrono::Utc::now() - Duration::from_secs(60 * 60 * 13));
    let last_played = stamp(chrono::Utc::now());
    assert_eq!(retention_str(&last_played, &retention), "13 hours");
}

#[test]
fn test_retention_str_one_minute() {
    let retention = stamp(chrono::Utc::now() - Duration::from_secs(70));
    let last_played = stamp(chrono::Utc::now());
    assert_eq!(retention_str(&last_played, &retention), "1 minute");
}

#[test]
fn test_retention_str_minutes() {
    let retention = stamp(chrono::Utc::now() - Duration::from_secs(125));
    let last_played = stamp(chrono::Utc::now());
    assert_eq!(retention_str(&last_played, &retention), "2 minutes");
}

#[test]
fn retention_str_exact_values() {
    let base = Timestamp::new(1_700_000_000, 500);
    let after = |secs: i64, nanos: u32| Timestamp::new(1_700_000_000 + secs, nanos);
    assert_eq!(retention_str(&base, &base), "0");
    assert_eq!(retention_str(&after(0, 499), &base), "0");
    assert_eq!(retention_str(&after(0, 501), &base), "0 minute");
    assert_eq!(retention_str(&after(59, 500), &base), "0 minute");
    assert_eq!(retention_str(&after(60, 500), &base), "1 minute");
    assert_eq!(retention_str(&after(60, 499), &base), "0 minute");
    assert_eq!(retention_str(&after(3599, 500), &base), "59 minutes");
    assert_eq!(retention_str(&after(3600, 500), &base), "1 hour");
    assert_eq!(retention_str(&after(86_399, 500), &base), "23 hours");
    assert_eq!(retention_str(&after(86_400, 500), &base), "1 day");
    assert_eq!(retention_str(&after(2 * 86_400, 500), &base), "2 days");
    assert_eq!(retention_str(&after(1000 * 86_400, 500), &base), "1000 days");
}

#[test]
fn retention_str_at_the_ends_of_the_range() {
    let first = Timestamp::new(i64::MIN, 0);
    let last = Timestamp::new(i64::MAX, u32::MAX);
    assert_eq!(retention_str(&first, &last), "0");
    // (2^64 - 1 + 4) / 86400 whole days
    assert_eq!(retention_str(&last, &first), "213503982334601 days");
}

#[test]
fn suffix_is_plural_above_one() {
    assert_eq!(suffix(-1), "");
    assert_eq!(suffix(0), "");
    assert_eq!(suffix(1), "");
    assert_eq!(suffix(2), "s");
    assert_eq!(suffix(i64::MAX), "s");
}

#[test]
fn the_boundary_is_strict() {
    let now = Timestamp::new(1_000_000, 0);
    let day = RetentionPeriod::from_secs(24 * 3600);
    // played 25 hours ago: eligible; 23 hours ago: not
    assert!(is_expired(&Timestamp::new(1_000_000 - 25 * 3600, 0), &now, &day));
    assert!(!is_expired(&Timestamp::new(1_000_000 - 23 * 3600, 0), &now, &day));
    // exactly one period ago: not yet; a nanosecond more: eligible
    assert!(!is_expired(&Timestamp::new(1_000_000 - 24 * 3600, 0), &now, &day));
    assert!(is_expired(&Timestamp::new(1_000_000 - 24 * 3600 - 1, 999_999_999), &now, &day));
    // nothing overflows at the ends of the range
    let longest = RetentionPeriod { secs: u64::MAX, nanos: u32::MAX };
    assert!(!is_expired(&Timestamp::new(i64::MIN, 0), &Timestamp::new(i64::MIN, 0), &longest));
    assert!(!is_expired(&Timestamp::new(i64::MIN, 0), &Timestamp::new(i64::MAX, u32::MAX), &longest));
    assert!(is_expired(
        &Timestamp::new(i64::MIN, 0),
        &Timestamp::new(i64::MAX, 0),
        &RetentionPeriod::from_secs(0)
    ));
}

#[test]
fn verdicts() {
    let now = Timestamp::new(1_000_000, 0);
    let day = Some(RetentionPeriod::from_secs(24 * 3600));
    let old = Timestamp::new(1_000_000 - 25 * 3600, 0);
    let recent = Timestamp::new(1_000_000 - 23 * 3600, 0);
    assert_eq!(verdict(false, Some(old), &day, &now), Verdict::Eligible);
    assert_eq!(verdict(false, Some(recent), &day, &now), Verdict::NotYet { last_played: recent });
    assert_eq!(verdict(false, None, &day, &now), Verdict::NeverPlayed);
    assert_eq!(verdict(true, Some(old), &day, &now), Verdict::Favorite);
    assert_eq!(verdict(true, Some(old), &None, &now), Verdict::Favorite);
    assert_eq!(verdict(false, None, &None, &now), Verdict::Eligible);
    assert_eq!(verdict(false, Some(recent), &None, &now), Verdict::Eligible);
}

fn played(name: &str, last_played: Option<Timestamp>) -> Item {
    Item {
        name: name.to_string(),
        id: name.to_string(),
        provider_ids: None,
        user_data: Some(ItemUserData { last_played_date: last_played, is_favorite: false }),
        parent_index_number: None,
        index_number: None,
    }
}

#[test]
fn items_without_user_data_were_never_played() {
    let now = Timestamp::new(1_000_000, 0);
    let day = Some(RetentionPeriod::from_secs(24 * 3600));
    let bare = Item { name: "bare".to_string(), ..Default::default() };
    assert_eq!(item_verdict(&bare, &day, &now), Verdict::NeverPlayed);
    assert_eq!(item_verdict(&bare, &None, &now), Verdict::Eligible);
    assert_eq!(retain_eligible(&[bare.clone()], &day, &now), vec![]);
    assert_eq!(retain_eligible(&[bare.clone()], &None, &now), vec![bare]);
}

#[test]
fn retain_eligible_now_reads_the_clock() {
    let now = chrono::Utc::now();
    let items = vec![
        played("old", Some(stamp(now - Duration::from_secs(25 * 3600)))),
        played("recent", Some(stamp(now - Duration::from_secs(23 * 3600)))),
        played("ahead", Some(stamp(now + Duration::from_secs(3600)))),
    ];
    let day = Some(RetentionPeriod::from_secs(24 * 3600));
    assert_eq!(retain_eligible_now(&items, &day), vec![items[0].clone()]);
    // a clock stuck at the epoch would keep all three back
    let hour = Some(RetentionPeriod::from_secs(3600));
    assert_eq!(retain_eligible_now(&items, &hour), vec![items[0].clone(), items[1].clone()]);
    assert_eq!(retain_eligible_now(&items, &None), items);
}

#[test]
fn latest_play_of_the_episodes() {
    let a = Timestamp::new(100, 0);
    let b = Timestamp::new(100, 1);
    let c = Timestamp::new(99, 999_999_999);
    assert_eq!(max_last_played(&[]), None);
    assert_eq!(max_last_played(&[played("x", None)]), None);
    assert_eq!(
        max_last_played(&[played("x", Some(a)), played("y", None), played("z", Some(c))]),
        Some(a)
    );
    assert_eq!(
        max_last_played(&[played("x", Some(a)), played("y", Some(b)), played("z", Some(c))]),
        Some(b)
    );
}

#[test]
fn retention_dates() {
    let day = RetentionPeriod::from_secs(86_400);
    assert_eq!(
        retention_date(&Timestamp::new(1_000_000, 5), &day),
        Some(Timestamp::new(1_000_000 - 86_400, 5))
    );
    // the nanosecond part borrows from the seconds
    let period = RetentionPeriod { secs: 1, nanos: 700_000_000 };
    assert_eq!(
        retention_date(&Timestamp::new(10, 200_000_000), &period),
        Some(Timestamp::new(8, 500_000_000))
    );
    assert_eq!(
        retention_date(&Timestamp::new(0, 0), &RetentionPeriod { secs: 0, nanos: 1 }),
        Some(Timestamp::new(-1, 999_999_999))
    );
    assert_eq!(retention_date(&Timestamp::new(-5, 0), &RetentionPeriod::from_secs(0)), Some(Timestamp::new(-5, 0)));
    // out of range on either side
    assert_eq!(retention_date(&Timestamp::new(i64::MIN, 0), &RetentionPeriod { secs: 0, nanos: 1 }), None);
    assert_eq!(retention_date(&Timestamp::new(i64::MAX, 1_000_000_000), &RetentionPeriod::from_secs(0)), None);
    assert_eq!(
        retention_date(&Timestamp::new(i64::MAX, 1_000_000_000), &RetentionPeriod::from_secs(1)),
        Some(Timestamp::new(i64::MAX, 0))
    );
}

#[test]
fn the_clock_is_read() {
    let before = stamp(chrono::Utc::now());
    let now = Timestamp::now();
    let after = stamp(chrono::Utc::now());
    assert!(!now.is_before(&before));
    assert!(!after.is_before(&now));
    assert!(now.nanos < 1_000_000_000);
    assert_eq!(Timestamp::new(3, 4).total_nanos(), 3_000_000_004);
    assert_eq!(RetentionPeriod { secs: 3, nanos: 4 }.total_nanos(), 3_000_000_004);
}
