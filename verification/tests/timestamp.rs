use my_retreat_nest::timestamp::Timestamp;

#[test]
fn renders_like_chrono_display() {
    let t = Timestamp::from_parts(0, 0, 0).unwrap();
    assert_eq!(t.to_text(), "1970-01-01 00:00:00 +00:00");
    let t = Timestamp::from_parts(1_700_000_000, 500_000_000, 19800).unwrap();
    assert_eq!(t.to_text(), "2023-11-15 03:43:20.500 +05:30");
    assert_eq!((t.secs(), t.nanos(), t.offset_secs()), (1_700_000_000, 500_000_000, 19800));
}

#[test]
fn out_of_range_parts_are_refused() {
    assert!(Timestamp::from_parts(0, 0, 86_400).is_none());
    assert!(Timestamp::from_parts(0, 0, -86_400).is_none());
    assert!(Timestamp::from_parts(i64::MAX, 0, 0).is_none());
    assert!(Timestamp::from_parts(0, 0, 86_399).is_some());
}

