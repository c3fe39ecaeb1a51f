use bytes::Bytes;
use chrono::{DateTime, Datelike, FixedOffset, NaiveDate, NaiveDateTime, NaiveTime, Timelike};
use neo4rs_bolt::temporal::{CivilDate, LocalDateTime, OffsetDateTime, TimeOfDay};
use neo4rs_bolt::types::{BoltDate, BoltDateTime, BoltDateTimeZoneId, BoltLocalDateTime, BoltLocalTime, BoltTime};
use neo4rs_bolt::de::DeError;
use neo4rs_bolt::types::{BoltInteger, BoltType};
use neo4rs_bolt::Version;

fn civil(d: NaiveDate) -> CivilDate {
    CivilDate { year: d.year(), month: d.month(), day: d.day() }
}

fn naive_date(d: CivilDate) -> NaiveDate {
    NaiveDate::from_ymd_opt(d.year, d.month, d.day).unwrap()
}

fn time_of_day(t: NaiveTime) -> TimeOfDay {
    TimeOfDay { seconds: t.num_seconds_from_midnight(), nanoseconds: t.nanosecond() }
}

fn naive_time(t: TimeOfDay) -> NaiveTime {
    NaiveTime::from_num_seconds_from_midnight_opt(t.seconds, t.nanoseconds).unwrap()
}

fn local(dt: NaiveDateTime) -> LocalDateTime {
    LocalDateTime { seconds: dt.and_utc().timestamp(), nanoseconds: dt.nanosecond() }
}

fn naive_datetime(l: LocalDateTime) -> NaiveDateTime {
    DateTime::from_timestamp(l.seconds, l.nanoseconds).unwrap().naive_utc()
}

fn with_offset(dt: DateTime<FixedOffset>) -> OffsetDateTime {
    OffsetDateTime { seconds: dt.timestamp(), nanoseconds: dt.nanosecond(), offset_seconds: dt.offset().local_minus_utc() }
}

fn fixed(o: OffsetDateTime) -> DateTime<FixedOffset> {
    DateTime::from_timestamp(o.seconds, o.nanoseconds)
        .unwrap()
        .with_timezone(&FixedOffset::east_opt(o.offset_seconds).unwrap())
}

#[test]
fn should_serialize_a_date() {
    let date = BoltDate::from_date(civil(NaiveDate::from_ymd_opt(2010, 1, 1).unwrap()));
    assert_eq!(date.into_bytes(Version::V4_1).unwrap(), Bytes::from_static(&[0xB1, 0x44, 0xC9, 0x39, 0x12]));
}

#[test]
fn should_deserialize_a_date() {
    let mut bytes = Bytes::from_static(&[0xB1, 0x44, 0xC9, 0x39, 0x12]);
    let date = naive_date(BoltDate::parse(Version::V4_1, &mut bytes).unwrap().try_to_chrono().unwrap());
    assert_eq!(date.to_string(), "2010-01-01");
}

#[test]
fn convert_to_chrono() {
    let date = NaiveDate::from_ymd_opt(2010, 1, 1).unwrap();
    let bolt = BoltDate::from_date(civil(date));
    let actual = naive_date(bolt.try_to_chrono().unwrap());
    assert_eq!(actual, date);
}

#[test]
fn convert_to_chrono_negative() {
    let date = NaiveDate::from_ymd_opt(1910, 1, 1).unwrap();
    let bolt = BoltDate::from_date(civil(date));
    let actual = naive_date(bolt.try_to_chrono().unwrap());
    assert_eq!(actual, date);
}

#[test]
fn should_serialize_time() {
    let time = NaiveTime::from_hms_nano_opt(7, 8, 9, 100).unwrap();
    let offset = FixedOffset::east_opt(2 * 3600).unwrap();
    let time = BoltTime::from_time(time_of_day(time), offset.local_minus_utc());
    assert_eq!(
        time.into_bytes(Version::V4_1).unwrap(),
        Bytes::from_static(&[0xB2, 0x54, 0xCB, 0x00, 0x00, 0x17, 0x5D, 0x2F, 0xB8, 0x3A, 0x64, 0xC9, 0x1C, 0x20])
    );
}

#[test]
fn should_deserialize_time() {
    let mut bytes =
        Bytes::from_static(&[0xB2, 0x54, 0xCB, 0x00, 0x00, 0x17, 0x5D, 0x2F, 0xB8, 0x3A, 0x64, 0xC9, 0x1C, 0x20]);
    let (time, offset) = BoltTime::parse(Version::V4_1, &mut bytes).unwrap().to_chrono();
    assert_eq!(naive_time(time).to_string(), "07:08:09.000000100");
    assert_eq!(FixedOffset::east_opt(offset).unwrap(), FixedOffset::east_opt(2 * 3600).unwrap());
}

#[test]
fn should_serialize_local_time() {
    let naive_time = NaiveTime::from_hms_nano_opt(7, 8, 9, 100).unwrap();
    let time = BoltLocalTime::from_time(time_of_day(naive_time));
    assert_eq!(
        time.into_bytes(Version::V4_1).unwrap(),
        Bytes::from_static(&[0xB1, 0x74, 0xCB, 0x00, 0x00, 0x17, 0x5D, 0x2F, 0xB8, 0x3A, 0x64])
    );
}

#[test]
fn should_deserialize_local_time() {
    let mut bytes = Bytes::from_static(&[0xB1, 0x74, 0xCB, 0x00, 0x00, 0x17, 0x5D, 0x2F, 0xB8, 0x3A, 0x64]);
    let time = naive_time(BoltLocalTime::parse(Version::V4_1, &mut bytes).unwrap().to_chrono());
    assert_eq!(time.to_string(), "07:08:09.000000100");
}

#[test]
fn should_serialize_a_datetime() {
    let date = BoltDateTime::from_offset(with_offset(
        DateTime::parse_from_rfc2822("Wed, 24 Jun 2015 12:50:35 +0100").unwrap(),
    ));
    assert_eq!(
        date.into_bytes(Version::V4_1).unwrap(),
        Bytes::from_static(&[0xB3, 0x46, 0xCA, 0x55, 0x8A, 0xA7, 0x9B, 0x00, 0xC9, 0x0E, 0x10])
    );
}

#[test]
fn should_deserialize_a_datetime() {
    let mut bytes = Bytes::from_static(&[0xB3, 0x46, 0xCA, 0x55, 0x8A, 0xA7, 0x9B, 0x00, 0xC9, 0x0E, 0x10]);
    let datetime = fixed(BoltDateTime::parse(Version::V4_1, &mut bytes).unwrap().try_to_chrono().unwrap());
    assert_eq!(datetime.to_rfc2822(), "Wed, 24 Jun 2015 12:50:35 +0100");
}

#[test]
fn should_serialize_a_localdatetime() {
    let date = BoltLocalDateTime::from_local(local(
        NaiveDateTime::parse_from_str("2015-07-01 08:59:60.123", "%Y-%m-%d %H:%M:%S%.f").unwrap(),
    ));
    assert_eq!(
        date.into_bytes(Version::V4_1).unwrap(),
        Bytes::from_static(&[0xB2, 0x64, 0xCA, 0x55, 0x93, 0xAC, 0x0F, 0xCA, 0x42, 0xEF, 0x9E, 0xC0])
    );
}

#[test]
fn should_deserialize_a_localdatetime() {
    let mut bytes = Bytes::from_static(&[0xB2, 0x64, 0xCA, 0x55, 0x93, 0xAC, 0x0F, 0xCA, 0x42, 0xEF, 0x9E, 0xC0]);
    let datetime = naive_datetime(BoltLocalDateTime::parse(Version::V4_1, &mut bytes).unwrap().try_to_chrono().unwrap());
    assert_eq!(datetime.to_string(), "2015-07-01 08:59:60.123");
}

#[test]
fn should_serialize_a_datetime_with_zoneid() {
    let datetime = NaiveDateTime::parse_from_str("2015-07-01 08:59:60.123", "%Y-%m-%d %H:%M:%S%.f").unwrap();
    let date = BoltDateTimeZoneId::from_local_in_zone(local(datetime), "Europe/Paris");
    assert_eq!(
        date.into_bytes(Version::V4_1).unwrap(),
        Bytes::from_static(&[
            0xB3, 0x66, 0xCA, 0x55, 0x93, 0xAC, 0x0F, 0xCA, 0x42, 0xEF, 0x9E, 0xC0, 0x8C, 0x45, 0x75, 0x72, 0x6F,
            0x70, 0x65, 0x2F, 0x50, 0x61, 0x72, 0x69, 0x73,
        ])
    );
}

#[test]
fn should_deserialize_a_datetime_with_zoneid() {
    let mut bytes = Bytes::from_static(&[
        0xB3, 0x66, 0xCA, 0x55, 0x93, 0xAC, 0x0F, 0xCA, 0x42, 0xEF, 0x9E, 0xC0, 0x8C, 0x45, 0x75, 0x72, 0x6F, 0x70,
        0x65, 0x2F, 0x50, 0x61, 0x72, 0x69, 0x73,
    ]);
    let (datetime, zone_id) =
        BoltDateTimeZoneId::parse(Version::V4_1, &mut bytes).unwrap().into_local_and_zone().unwrap();
    assert_eq!(naive_datetime(datetime).to_string(), "2015-07-01 08:59:60.123");
    assert_eq!(zone_id, "Europe/Paris");
}

#[test]
fn date_out_of_range_is_a_conversion_error() {
    let date = BoltDate { days: neo4rs_bolt::types::BoltInteger::new(i64::MIN) };
    assert!(matches!(date.try_to_chrono(), Err(neo4rs_bolt::Error::ConversionError)));
    let date = BoltDate { days: neo4rs_bolt::types::BoltInteger::new(-1) };
    assert_eq!(naive_date(date.try_to_chrono().unwrap()).to_string(), "1969-12-31");
}

#[test]
fn local_time_from_negative_nanoseconds_reads_as_rust_divides() {
    // -(2^32 - 5) seconds: the whole seconds wrap to 5 when cast to u32
    let time = BoltLocalTime { nanoseconds: neo4rs_bolt::types::BoltInteger::new(-4_294_967_291_000_000_000) };
    assert_eq!(time.to_chrono(), TimeOfDay { seconds: 5, nanoseconds: 0 });
    let time = BoltLocalTime { nanoseconds: neo4rs_bolt::types::BoltInteger::new(86_399_999_999_999) };
    assert_eq!(time.to_chrono(), TimeOfDay { seconds: 86_399, nanoseconds: 999_999_999 });
}

#[test]
fn datetime_with_bad_offset_is_a_conversion_error() {
    let dt = BoltDateTime::from_offset(OffsetDateTime { seconds: 0, nanoseconds: 0, offset_seconds: 3600 });
    assert_eq!(dt.seconds.value, 3600);
    let bad = BoltDateTime { tz_offset_seconds: neo4rs_bolt::types::BoltInteger::new(86_400), ..dt.clone() };
    assert!(matches!(bad.try_to_chrono(), Err(neo4rs_bolt::Error::ConversionError)));
    let bad = BoltDateTime { nanoseconds: neo4rs_bolt::types::BoltInteger::new(2_000_000_000), ..dt.clone() };
    assert!(matches!(bad.try_to_chrono(), Err(neo4rs_bolt::Error::ConversionError)));
    assert_eq!(dt.try_to_chrono().unwrap(), OffsetDateTime { seconds: 0, nanoseconds: 0, offset_seconds: 3600 });
}

#[test]
fn datetime_in_zone_takes_the_offset_of_the_zone() {
    // 2015-07-01T12:00:00 in Paris is summer time, two hours east of UTC
    let local = local(NaiveDate::from_ymd_opt(2015, 7, 1).unwrap().and_hms_opt(12, 0, 0).unwrap());
    let dt = BoltDateTimeZoneId::from_local_in_zone(local, "Europe/Paris");
    let o = dt.try_to_chrono().unwrap();
    assert_eq!(o.offset_seconds, 7200);
    assert_eq!(o.seconds, local.seconds - 7200);
    let unknown = BoltDateTimeZoneId::from_local_in_zone(local, "Nowhere/Atlantis");
    assert!(matches!(unknown.try_to_chrono(), Err(neo4rs_bolt::Error::ConversionError)));
    assert_eq!(dt.tz_id(), "Europe/Paris");
}

#[test]
fn only_existing_dates_convert() {
    assert!(BoltDate::try_from_date(CivilDate { year: 2023, month: 2, day: 29 }).is_none());
    let leap = BoltDate::try_from_date(CivilDate { year: 2024, month: 2, day: 29 }).unwrap();
    assert_eq!(leap.days.value, 19782);
    assert_eq!(BoltDate::try_from_date(CivilDate { year: 1970, month: 1, day: 1 }).unwrap().days.value, 0);
}

#[test]
fn date_times_read_as_nanosecond_timestamps() {
    // 1970-01-01T01:00:01.5 at one hour east of UTC is one and a half seconds after the epoch
    let dt = BoltDateTime {
        seconds: BoltInteger::new(3601),
        nanoseconds: BoltInteger::new(500_000_000),
        tz_offset_seconds: BoltInteger::new(3600),
    };
    assert_eq!(BoltType::DateTime(dt.clone()).to::<i64>().unwrap(), 1_500_000_000);
    assert!(matches!(BoltType::DateTime(dt).to::<i16>(), Err(DeError::IntegerOutOfBounds(1_500_000_000, "i16"))));
    let ldt = BoltLocalDateTime { seconds: BoltInteger::new(-1), nanoseconds: BoltInteger::new(0) };
    assert_eq!(BoltType::LocalDateTime(ldt.clone()).to::<i64>().unwrap(), -1_000_000_000);
    assert!(matches!(BoltType::LocalDateTime(ldt).to::<u64>(), Err(DeError::IntegerOutOfBounds(-1_000_000_000, "u64"))));
    // the year 3000 is beyond nanoseconds in an i64
    let far = BoltLocalDateTime { seconds: BoltInteger::new(32_503_680_000), nanoseconds: BoltInteger::new(0) };
    assert!(matches!(BoltType::LocalDateTime(far).to::<i64>(), Err(DeError::DateTimeOutOfBounds("i64"))));
    let bad = BoltLocalDateTime { seconds: BoltInteger::new(0), nanoseconds: BoltInteger::new(2_000_000_000) };
    assert!(matches!(BoltType::LocalDateTime(bad).to::<i64>(), Err(DeError::DateTimeOutOfBounds("i64"))));
}

#[test]
fn temporal_values_read_as_strings() {
    let date = BoltType::Date(BoltDate::from_date(civil(NaiveDate::from_ymd_opt(2010, 1, 1).unwrap())));
    assert_eq!(date.to::<String>().unwrap(), "2010-01-01");
    let time = BoltType::LocalTime(BoltLocalTime::from_time(time_of_day(NaiveTime::from_hms_nano_opt(7, 8, 9, 100).unwrap())));
    assert_eq!(time.to::<String>().unwrap(), "07:08:09.000000100");
    let time = BoltType::Time(BoltTime::from_time(time_of_day(NaiveTime::from_hms_opt(7, 8, 9).unwrap()), 3600));
    assert_eq!(time.to::<String>().unwrap(), "07:08:09");
    let ldt = NaiveDateTime::parse_from_str("2015-07-01 08:59:60.123", "%Y-%m-%d %H:%M:%S%.f").unwrap();
    let local_dt = BoltType::LocalDateTime(BoltLocalDateTime::from_local(local(ldt)));
    assert_eq!(local_dt.to::<String>().unwrap(), "2015-07-01T08:59:60.123");
    let dt = DateTime::parse_from_rfc2822("Wed, 24 Jun 2015 12:50:35 +0100").unwrap();
    let bolt_dt = BoltType::DateTime(BoltDateTime::from_offset(with_offset(dt)));
    assert_eq!(bolt_dt.to::<String>().unwrap(), "2015-06-24T12:50:35+01:00");
    let noon = local(NaiveDate::from_ymd_opt(2015, 7, 1).unwrap().and_hms_opt(12, 0, 0).unwrap());
    let zoned = BoltType::DateTimeZoneId(BoltDateTimeZoneId::from_local_in_zone(noon, "Europe/Paris"));
    assert_eq!(zoned.to::<String>().unwrap(), "2015-07-01T12:00:00+02:00");
    let bad = BoltType::LocalTime(BoltLocalTime { nanoseconds: BoltInteger::new(-1) });
    assert!(matches!(bad.to::<String>(), Err(DeError::Other(m)) if m == "Could not convert Neo4j LocalTime into chrono::NaiveTime"));
    let far = BoltType::Date(BoltDate { days: BoltInteger::new(i64::MAX) });
    assert!(matches!(far.to::<String>(), Err(DeError::Other(m)) if m == "Could not convert Neo4j Date into chrono::NaiveDate"));
}
