use media_thumb::cache::{is_not_modified, unchanged_since, Timestamp};

const NOV_6_1994: u64 = 784111777;

#[test]
fn file_older_than_the_date_is_not_modified() {
    let modified = Timestamp::after_epoch(NOV_6_1994 - 1, 999_999_999);
    assert!(is_not_modified(Some("Sun, 06 Nov 1994 08:49:37 GMT"), modified));
}

#[test]
fn file_of_the_very_second_is_not_modified() {
    let modified = Timestamp::after_epoch(NOV_6_1994, 0);
    assert!(is_not_modified(Some("Sun, 06 Nov 1994 08:49:37 GMT"), modified));
}

#[test]
fn file_a_nanosecond_younger_is_modified() {
    let modified = Timestamp::after_epoch(NOV_6_1994, 1);
    assert!(!is_not_modified(Some("Sun, 06 Nov 1994 08:49:37 GMT"), modified));
}

#[test]
fn the_three_date_formats_are_read() {
    let modified = Timestamp::after_epoch(NOV_6_1994, 0);
    let younger = Timestamp::after_epoch(NOV_6_1994 + 1, 0);
    for date in [
        "Sun, 06 Nov 1994 08:49:37 GMT",
        "Sunday, 06-Nov-94 08:49:37 GMT",
        "Sun Nov  6 08:49:37 1994",
    ] {
        assert!(is_not_modified(Some(date), modified), "{}", date);
        assert!(!is_not_modified(Some(date), younger), "{}", date);
    }
}

#[test]
fn without_a_date_the_file_counts_as_modified() {
    let modified = Timestamp::after_epoch(0, 0);
    assert!(!is_not_modified(None, modified));
    assert!(!is_not_modified(Some(""), modified));
    assert!(!is_not_modified(Some("yesterday"), modified));
    assert!(!is_not_modified(Some("Sun, 07 Nov 1994 08:48:37 GMT"), modified));
    assert!(!is_not_modified(Some("784111777"), modified));
}

#[test]
fn file_from_before_the_epoch_is_not_modified() {
    let modified = Timestamp::before_epoch(5, 500);
    assert!(is_not_modified(Some("Thu, 01 Jan 1970 00:00:00 GMT"), modified));
    assert!(is_not_modified(Some("Thu, 01 Jan 1970 00:00:00 GMT"), Timestamp::before_epoch(0, 0)));
    assert!(!is_not_modified(Some("Thu, 01 Jan 1970 00:00:00 GMT"), Timestamp::after_epoch(0, 1)));
}

#[test]
fn timestamps_count_nanoseconds() {
    assert_eq!(Timestamp::after_epoch(0, 0).nanos, 0);
    assert_eq!(Timestamp::after_epoch(2, 5).nanos, 2_000_000_005);
    assert_eq!(Timestamp::before_epoch(2, 5).nanos, -2_000_000_005);
    assert_eq!(Timestamp::before_epoch(0, 0), Timestamp::after_epoch(0, 0));
    assert_eq!(
        Timestamp::after_epoch(u64::MAX, u32::MAX).nanos,
        18_446_744_073_709_551_615_000_000_000 + 4_294_967_295
    );
    assert_eq!(
        Timestamp::before_epoch(u64::MAX, u32::MAX).nanos,
        -(18_446_744_073_709_551_615_000_000_000 + 4_294_967_295)
    );
}

#[test]
fn comparison_at_the_ends_of_the_range() {
    assert!(unchanged_since(Timestamp::before_epoch(u64::MAX, u32::MAX), Some(0)));
    assert!(unchanged_since(Timestamp::after_epoch(u64::MAX, 0), Some(u64::MAX)));
    assert!(!unchanged_since(Timestamp::after_epoch(u64::MAX, 1), Some(u64::MAX)));
    assert!(!unchanged_since(Timestamp::after_epoch(u64::MAX, u32::MAX), Some(0)));
    assert!(!unchanged_since(Timestamp::after_epoch(10, 0), None));
    assert!(unchanged_since(Timestamp::after_epoch(10, 0), Some(10)));
    assert!(!unchanged_since(Timestamp::after_epoch(10, 1), Some(10)));
    assert!(unchanged_since(Timestamp::after_epoch(9, 1_000_000_000), Some(10)));
}
