use neo4rs_bolt::de::DeError;
use neo4rs_bolt::fields::{BoltPointBuilder, DateTimeIshBuilder, DurationBuilder, DurationFields, Fields, PointFields};
use neo4rs_bolt::types::{
    BoltDate, BoltDateTime, BoltDateTimeZoneId, BoltFloat, BoltInteger, BoltLocalDateTime, BoltLocalTime, BoltString,
    BoltTime,
};

fn integer(v: i64) -> impl FnOnce() -> Result<BoltInteger, DeError> {
    move || Ok(BoltInteger::new(v))
}

fn no_str() -> impl FnOnce() -> Result<BoltString, DeError> {
    || Err(DeError::NoSuchProperty)
}

#[test]
fn date_time_from_fields() {
    let mut b = DateTimeIshBuilder::default();
    b.read_field(Fields::Seconds, integer(3601), no_str()).unwrap();
    b.read_field(Fields::NanoSeconds, integer(5), no_str()).unwrap();
    b.read_field(Fields::TzOffsetSeconds, integer(3600), no_str()).unwrap();
    // a repeated field is refused and the first value kept
    assert!(matches!(b.read_field(Fields::Seconds, integer(9), no_str()), Err(DeError::DuplicateField { field: "seconds" })));
    let dt: BoltDateTime = b.finish().unwrap();
    assert_eq!(dt.seconds, BoltInteger::new(3601));
    assert_eq!(dt.nanoseconds, BoltInteger::new(5));
    assert_eq!(dt.tz_offset_seconds, BoltInteger::new(3600));
}

#[test]
fn date_time_fields_left_over_or_missing() {
    let mut b = DateTimeIshBuilder::default();
    b.read_field(Fields::Seconds, integer(1), no_str()).unwrap();
    b.read_field(Fields::NanoSeconds, integer(2), no_str()).unwrap();
    b.read_field(Fields::Days, integer(3), no_str()).unwrap();
    let local: Result<BoltLocalDateTime, DeError> = b.clone().finish();
    assert!(matches!(local, Err(DeError::UnknownField { field, expected })
        if field == "days" && expected == ["seconds", "nanoseconds", "tz_offset_seconds", "tz_id"]));
    let date: Result<BoltDate, DeError> = b.clone().finish();
    assert!(matches!(date, Err(DeError::UnknownField { field, .. }) if field == "seconds"));
    let time: Result<BoltTime, DeError> = b.finish();
    assert!(matches!(time, Err(DeError::MissingField { field: "tz_offset_seconds" })));
    let empty: Result<BoltLocalTime, DeError> = DateTimeIshBuilder::default().finish();
    assert!(matches!(empty, Err(DeError::MissingField { field: "nanoseconds" })));
}

#[test]
fn date_time_zone_and_unknown_fields() {
    let mut b = DateTimeIshBuilder::default();
    b.read_field(Fields::Seconds, integer(1), no_str()).unwrap();
    b.read_field(Fields::NanoSeconds, integer(0), no_str()).unwrap();
    b.read_field(Fields::TzInfo, integer(0), || Ok(BoltString::from("Europe/Paris"))).unwrap();
    assert!(matches!(b.read_field(Fields::Datetime, integer(0), no_str()), Err(DeError::UnknownField { field, .. }) if field == "datetime"));
    let zoned: BoltDateTimeZoneId = b.finish().unwrap();
    assert_eq!(zoned.tz_id(), "Europe/Paris");
    // a failed read is passed on
    let mut b = DateTimeIshBuilder::default();
    assert!(matches!(b.read_field(Fields::TzInfo, integer(0), no_str()), Err(DeError::NoSuchProperty)));
}

#[test]
fn duration_from_fields() {
    let mut b = DurationBuilder::default();
    assert!(matches!(b.clone().build(), Err(DeError::MissingField { field: "months" })));
    b.read_field(DurationFields::Months, integer(1)).unwrap();
    b.read_field(DurationFields::Days, integer(2)).unwrap();
    assert!(matches!(b.clone().build(), Err(DeError::MissingField { field: "seconds" })));
    b.read_field(DurationFields::Seconds, integer(3)).unwrap();
    b.read_field(DurationFields::NanoSeconds, integer(4)).unwrap();
    assert!(matches!(
        b.read_field(DurationFields::NanoSeconds, integer(5)),
        Err(DeError::DuplicateField { field: "nanoseconds" })
    ));
    assert!(matches!(
        b.read_field(DurationFields::Months, integer(7)),
        Err(DeError::DuplicateField { field: "months" })
    ));
    let d = b.build().unwrap();
    assert_eq!(d.months, BoltInteger::new(1));
    assert_eq!(d.nanoseconds, BoltInteger::new(4));
}

#[test]
fn points_from_fields() {
    let coordinate = |v: f64| move || Ok(BoltFloat::from_bits(v.to_bits()));
    let mut b = BoltPointBuilder::default();
    b.read_field(PointFields::SrId, integer(4326), coordinate(0.0)).unwrap();
    b.read_field(PointFields::X, integer(0), coordinate(1.5)).unwrap();
    assert!(matches!(b.clone().build_2d(), Err(DeError::MissingField { field: "y" })));
    b.read_field(PointFields::Y, integer(0), coordinate(2.5)).unwrap();
    assert!(matches!(
        b.read_field(PointFields::Y, integer(0), coordinate(3.5)),
        Err(DeError::DuplicateField { field: "y" })
    ));
    let p = b.clone().build_2d().unwrap();
    assert_eq!(f64::from_bits(p.y.bits), 2.5);
    assert!(matches!(b.clone().build_3d(), Err(DeError::MissingField { field: "z" })));
    b.read_field(PointFields::Z, integer(0), coordinate(4.5)).unwrap();
    assert!(matches!(b.clone().build_2d(), Err(DeError::UnknownField { field, expected }) if field == "z" && expected == ["sr_id", "x", "y"]));
    let p = b.build_3d().unwrap();
    assert_eq!(f64::from_bits(p.z.bits), 4.5);
    assert_eq!(p.sr_id, BoltInteger::new(4326));
}
