use glitchtip_relay::timestamp::current_timestamp;
use glitchtip_relay::timestamp::format_timestamp;
use glitchtip_relay::timestamp::MAX_FORMAT_SECONDS;

#[test]
fn epoch_start_formats_as_expected() {
    assert_eq!(format_timestamp(0), "1970-01-01 00:00:00");
}

#[test]
fn known_instants_format_exactly() {
    assert_eq!(format_timestamp(1_700_000_000), "2023-11-14 22:13:20");
    assert_eq!(format_timestamp(946_684_800), "2000-01-01 00:00:00");
    // 2000 is a leap year: the day after February 28 is February 29.
    assert_eq!(format_timestamp(951_782_400), "2000-02-29 00:00:00");
    // 1900 was not; there is no need to render it, but 2100 is in range
    // and is not a leap year either: March 1 follows February 28.
    assert_eq!(format_timestamp(4_107_542_400), "2100-03-01 00:00:00");
}

#[test]
fn last_renderable_second() {
    assert_eq!(format_timestamp(MAX_FORMAT_SECONDS), "9999-12-31 23:59:59");
}

#[test]
fn formatting_agrees_with_chrono() {
    for secs in [0i64, 86_399, 86_400, 1_000_000_000, 1_700_000_000, 2_000_000_003] {
        let expected = chrono::DateTime::from_timestamp(secs, 0)
            .unwrap()
            .format("%Y-%m-%d %H:%M:%S")
            .to_string();
        assert_eq!(format_timestamp(secs as u64), expected);
    }
}

#[test]
fn current_timestamp_has_clock_shape() {
    let text = current_timestamp();
    let bytes = text.as_bytes();
    assert_eq!(bytes.len(), 19);
    for (i, b) in bytes.iter().enumerate() {
        match i {
            4 | 7 => assert_eq!(*b, b'-'),
            10 => assert_eq!(*b, b' '),
            13 | 16 => assert_eq!(*b, b':'),
            _ => assert!(b.is_ascii_digit()),
        }
    }
}
