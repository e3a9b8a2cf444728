use timestamp::{
    CalendarInstant, ConvertError, NativeKind, NativeValue, SplitSeconds, StorageEncoding,
    Timestamp, Zone,
};

fn split(v: f64) -> SplitSeconds {
    SplitSeconds { whole: v.floor() as i64, fraction_nanos: ((v - v.floor()) * 1e9) as i32 }
}

fn join(d: SplitSeconds) -> f64 {
    d.whole as f64 + (d.fraction_nanos as f64 / 1e9)
}

fn double_of(v: NativeValue) -> f64 {
    match v {
        NativeValue::Double(Some(d)) => join(d),
        other => panic!("not a double: {:?}", other),
    }
}

#[test]
fn default_encoding_is_the_date_time() {
    assert_eq!(StorageEncoding::default(), StorageEncoding::DatetimeWithTimezone);
}

#[test]
fn double_seconds_scenario() {
    let ts = Timestamp { seconds: 1_700_000_000, nanoseconds: 500_000_000 };
    let written = ts.into_value(StorageEncoding::DoubleSeconds);
    assert_eq!(
        written,
        NativeValue::Double(Some(SplitSeconds { whole: 1_700_000_000, fraction_nanos: 500_000_000 }))
    );
    let v = double_of(written);
    assert_eq!(v, 1700000000.5);
    let read = NativeValue::Double(Some(split(v)));
    assert_eq!(Timestamp::try_from(read), Ok(ts));
}

#[test]
fn integer_seconds_scenario() {
    let ts = Timestamp { seconds: -5, nanoseconds: 0 };
    let written = ts.into_value(StorageEncoding::IntegerSeconds);
    assert_eq!(written, NativeValue::BigInt(Some(-5)));
    assert_eq!(Timestamp::try_from(written), Ok(Timestamp { seconds: -5, nanoseconds: 0 }));
}

#[test]
fn integer_seconds_drops_nanoseconds() {
    let ts = Timestamp { seconds: 9, nanoseconds: 999 };
    let written = ts.into_value(StorageEncoding::IntegerSeconds);
    assert_eq!(written, NativeValue::BigInt(Some(9)));
    assert_eq!(written.decode_lenient(), Timestamp { seconds: 9, nanoseconds: 0 });
}

#[test]
fn date_time_encoding_writes_a_utc_date_time() {
    let ts = Timestamp { seconds: 1_700_000_000, nanoseconds: 1 };
    let written = ts.into_value(StorageEncoding::DatetimeWithTimezone);
    assert_eq!(
        written,
        NativeValue::DateTimeUtc(Some(CalendarInstant {
            seconds: 1_700_000_000,
            nanoseconds: 1,
            zone: Zone::Utc
        }))
    );
    assert_eq!(written.decode_lenient(), ts);
}

#[test]
fn date_time_encoding_out_of_range_writes_the_epoch() {
    let ts = Timestamp { seconds: i64::MAX, nanoseconds: 0 };
    let written = ts.into_value(StorageEncoding::DatetimeWithTimezone);
    assert_eq!(
        written,
        NativeValue::DateTimeUtc(Some(CalendarInstant { seconds: 0, nanoseconds: 0, zone: Zone::Utc }))
    );
    assert!(written.decode_lenient().is_empty());
}

#[test]
fn doubles_round_trip_within_a_microsecond() {
    let values: [f64; 7] = [0.0, 1.5, 1700000000.123456789, -0.25, -5.0, -1234.75, 0.999999];
    for v in values {
        let ts = Timestamp::from(split(v));
        assert_eq!(ts.seconds, v.floor() as i64);
        let back = join(SplitSeconds::from(ts));
        assert!((back - v).abs() < 1e-6, "{} came back as {}", v, back);
    }
}

#[test]
fn decode_each_native_kind() {
    let c = CalendarInstant { seconds: 77, nanoseconds: 88, zone: Zone::Local };
    assert_eq!(
        NativeValue::DateTimeWithTimeZone(Some(c)).decode_lenient(),
        Timestamp { seconds: 77, nanoseconds: 88 }
    );
    assert_eq!(
        NativeValue::DateTimeUtc(Some(c.with_zone(Zone::Utc))).decode_lenient(),
        Timestamp { seconds: 77, nanoseconds: 88 }
    );
    assert_eq!(
        NativeValue::BigInt(Some(-3)).decode_lenient(),
        Timestamp { seconds: -3, nanoseconds: 0 }
    );
    assert_eq!(
        NativeValue::Int(Some(-3)).decode_lenient(),
        Timestamp { seconds: -3, nanoseconds: 0 }
    );
    assert_eq!(
        NativeValue::Int(Some(i32::MAX)).decode_lenient(),
        Timestamp { seconds: 2_147_483_647, nanoseconds: 0 }
    );
    assert_eq!(
        NativeValue::Double(Some(SplitSeconds { whole: 1, fraction_nanos: 500_000_000 }))
            .decode_lenient(),
        Timestamp { seconds: 1, nanoseconds: 500_000_000 }
    );
}

#[test]
fn unrecognized_kind_decodes_to_empty() {
    assert_eq!(Timestamp::try_from(NativeValue::Other), Ok(Timestamp { seconds: 0, nanoseconds: 0 }));
    assert!(NativeValue::Other.decode_lenient().is_empty());
    assert_eq!(NativeValue::Other.decode_strict(), None);
}

#[test]
fn nulls_decode_to_empty() {
    let nulls = [
        NativeValue::DateTimeWithTimeZone(None),
        NativeValue::DateTimeUtc(None),
        NativeValue::BigInt(None),
        NativeValue::Double(None),
        NativeValue::Int(None),
    ];
    for v in nulls {
        assert_eq!(Timestamp::try_from(v), Ok(Timestamp::default()));
        assert_eq!(v.decode_strict(), None);
    }
}

#[test]
fn strict_decode_gives_what_lenient_gives_for_present_values() {
    let v = NativeValue::BigInt(Some(0));
    assert_eq!(v.decode_strict(), Some(Timestamp::default()));
    assert_eq!(v.decode_lenient(), Timestamp::default());
    let w = NativeValue::BigInt(Some(12));
    assert_eq!(w.decode_strict(), Some(w.decode_lenient()));
}

#[test]
fn null_of_each_encoding() {
    assert_eq!(Timestamp::null(StorageEncoding::DoubleSeconds), NativeValue::Double(None));
    assert_eq!(Timestamp::null(StorageEncoding::IntegerSeconds), NativeValue::BigInt(None));
    assert_eq!(
        Timestamp::null(StorageEncoding::DatetimeWithTimezone),
        NativeValue::DateTimeUtc(None)
    );
}

#[test]
fn column_and_array_type_of_each_encoding() {
    assert_eq!(Timestamp::column_type(StorageEncoding::DoubleSeconds), NativeKind::Double);
    assert_eq!(Timestamp::column_type(StorageEncoding::IntegerSeconds), NativeKind::BigInt);
    assert_eq!(
        Timestamp::column_type(StorageEncoding::DatetimeWithTimezone),
        NativeKind::DateTimeUtc
    );
    assert_eq!(Timestamp::array_type(StorageEncoding::DoubleSeconds), NativeKind::Double);
    assert_eq!(Timestamp::array_type(StorageEncoding::IntegerSeconds), NativeKind::BigInt);
    assert_eq!(
        Timestamp::array_type(StorageEncoding::DatetimeWithTimezone),
        NativeKind::DateTimeUtc
    );
    assert_eq!(StorageEncoding::default().native_kind(), NativeKind::DateTimeUtc);
}

#[test]
fn from_a_row_identity_always_fails() {
    for n in [0u64, 1, 42, u64::MAX] {
        assert_eq!(Timestamp::try_from_u64(n), Err(ConvertError::FromU64Unsupported));
    }
    assert_eq!(ConvertError::FromU64Unsupported.message(), "Timestamps not supported");
}

#[test]
fn name_of_the_value_type() {
    assert_eq!(Timestamp::value_type_name(), "Timestamp");
}
