//! Temporal values, durations and points built from their named fields as
//! they are read.
use vstd::prelude::*;
use crate::builder::{read_once, set_once, SetOnce};
use crate::de::{names, DeError, DeErrorModel};
use crate::types::{
    BoltDate, BoltDateTime, BoltDateTimeZoneId, BoltDuration, BoltFloat, BoltInteger, BoltLocalDateTime, BoltLocalTime,
    BoltPoint2D, BoltPoint3D, BoltString, BoltTime,
};

verus! {

/// The fields of a temporal structure.
#[derive(Debug, Clone, Copy, PartialEq, Eq, Structural)]
pub enum Fields {
    Seconds,
    NanoSeconds,
    TzOffsetSeconds,
    TzInfo,
    Days,
    Datetime,
    NaiveDatetime,
}

/// The slots of the fields of a temporal value while it is read.
#[derive(Debug, Clone)]
pub struct DateTimeIshBuilder {
    pub seconds: SetOnce<BoltInteger>,
    pub nanoseconds: SetOnce<BoltInteger>,
    pub tz_offset_seconds: SetOnce<BoltInteger>,
    pub tz_id: SetOnce<BoltString>,
    pub days: SetOnce<BoltInteger>,
}

impl Default for DateTimeIshBuilder {
    fn default() -> (r: DateTimeIshBuilder)
        ensures
            r.seconds is Empty,
            r.nanoseconds is Empty,
            r.tz_offset_seconds is Empty,
            r.tz_id is Empty,
            r.days is Empty,
    {
        DateTimeIshBuilder {
            seconds: SetOnce::Empty,
            nanoseconds: SetOnce::Empty,
            tz_offset_seconds: SetOnce::Empty,
            tz_id: SetOnce::Empty,
            days: SetOnce::Empty,
        }
    }
}

/// Reading the field `key` into `before`, which leaves `after` and answers
/// `r`: an integer field reads through `read_int` and the zone through
/// `read_str`; a read error is passed on and a repeated field refused; a
/// whole date-time is an unknown field.
pub open spec fn date_time_field_read<FI, FS>(
    before: DateTimeIshBuilder,
    after: DateTimeIshBuilder,
    key: Fields,
    read_int: FI,
    read_str: FS,
    r: Result<(), DeError>,
) -> bool where
    FI: FnOnce() -> Result<BoltInteger, DeError>,
    FS: FnOnce() -> Result<BoltString, DeError>,
 {
    match key {
        Fields::Seconds => after == (DateTimeIshBuilder { seconds: after.seconds, ..before })
            && read_once(before.seconds, after.seconds, read_int, r, "seconds"@),
        Fields::NanoSeconds => after == (DateTimeIshBuilder { nanoseconds: after.nanoseconds, ..before })
            && read_once(before.nanoseconds, after.nanoseconds, read_int, r, "nanoseconds"@),
        Fields::TzOffsetSeconds => after == (DateTimeIshBuilder { tz_offset_seconds: after.tz_offset_seconds, ..before })
            && read_once(before.tz_offset_seconds, after.tz_offset_seconds, read_int, r, "tz_offset_seconds"@),
        Fields::TzInfo => after == (DateTimeIshBuilder { tz_id: after.tz_id, ..before })
            && read_once(before.tz_id, after.tz_id, read_str, r, "tz_id"@),
        Fields::Days => after == (DateTimeIshBuilder { days: after.days, ..before })
            && read_once(before.days, after.days, read_int, r, "days"@),
        _ => after == before && (r matches Err(e) && e@ == DeErrorModel::UnknownField {
            field: "datetime"@,
            expected: seq!["seconds"@, "nanoseconds"@, "ts_offset_seconds"@, "tz_id"@, "days"@],
        }),
    }
}

/// The error of the first field that is still set once a value is built,
/// if any.
pub open spec fn leftover_error(b: DateTimeIshBuilder) -> Option<DeErrorModel> {
    if b.seconds is Filled {
        Some(DeErrorModel::UnknownField {
            field: "seconds"@,
            expected: seq!["nanoseconds"@, "ts_offset_seconds"@, "tz_id"@, "days"@],
        })
    } else if b.nanoseconds is Filled {
        Some(DeErrorModel::UnknownField {
            field: "nanoseconds"@,
            expected: seq!["seconds"@, "ts_offset_seconds"@, "tz_id"@, "days"@],
        })
    } else if b.tz_offset_seconds is Filled {
        Some(DeErrorModel::UnknownField {
            field: "tz_offset_seconds"@,
            expected: seq!["seconds"@, "nanoseconds"@, "tz_id"@, "days"@],
        })
    } else if b.tz_id is Filled {
        Some(DeErrorModel::UnknownField {
            field: "tz_id"@,
            expected: seq!["seconds"@, "nanoseconds"@, "tz_offset_seconds"@, "days"@],
        })
    } else if b.days is Filled {
        Some(DeErrorModel::UnknownField {
            field: "days"@,
            expected: seq!["seconds"@, "nanoseconds"@, "tz_offset_seconds"@, "tz_id"@],
        })
    } else {
        None
    }
}

/// A `String` of the characters of `s`.
fn text(s: &str) -> (r: String)
    ensures
        r@ == s@,
{
    crate::convert::owned(s)
}

impl DateTimeIshBuilder {
    /// Reads the field `key`; see `date_time_field_read`.
    pub fn read_field(
        &mut self,
        key: Fields,
        read_int: impl FnOnce() -> Result<BoltInteger, DeError>,
        read_str: impl FnOnce() -> Result<BoltString, DeError>,
    ) -> (r: Result<(), DeError>)
        requires
            read_int.requires(()),
            read_str.requires(()),
        ensures
            date_time_field_read(*old(self), *final(self), key, read_int, read_str, r),
    {
        match key {
            Fields::Seconds => set_once(&mut self.seconds, read_int, "seconds"),
            Fields::NanoSeconds => set_once(&mut self.nanoseconds, read_int, "nanoseconds"),
            Fields::TzOffsetSeconds => set_once(&mut self.tz_offset_seconds, read_int, "tz_offset_seconds"),
            Fields::TzInfo => set_once(&mut self.tz_id, read_str, "tz_id"),
            Fields::Days => set_once(&mut self.days, read_int, "days"),
            Fields::Datetime | Fields::NaiveDatetime => {
                let e = DeError::UnknownField {
                    field: text("datetime"),
                    expected: &["seconds", "nanoseconds", "ts_offset_seconds", "tz_id", "days"],
                };
                assert(names(e->expected) =~= seq!["seconds"@, "nanoseconds"@, "ts_offset_seconds"@, "tz_id"@, "days"@]);
                Err(e)
            },
        }
    }

    /// The error of the first field that is still set, if any.
    fn leftover(&self) -> (r: Result<(), DeError>)
        ensures
            match leftover_error(*self) {
                Some(e) => r matches Err(x) && x@ == e,
                None => r is Ok,
            },
    {
        if self.seconds.is_set() {
            let e = DeError::UnknownField {
                field: text("seconds"),
                expected: &["nanoseconds", "ts_offset_seconds", "tz_id", "days"],
            };
            assert(names(e->expected) =~= seq!["nanoseconds"@, "ts_offset_seconds"@, "tz_id"@, "days"@]);
            return Err(e);
        }
        if self.nanoseconds.is_set() {
            let e = DeError::UnknownField {
                field: text("nanoseconds"),
                expected: &["seconds", "ts_offset_seconds", "tz_id", "days"],
            };
            assert(names(e->expected) =~= seq!["seconds"@, "ts_offset_seconds"@, "tz_id"@, "days"@]);
            return Err(e);
        }
        if self.tz_offset_seconds.is_set() {
            let e = DeError::UnknownField {
                field: text("tz_offset_seconds"),
                expected: &["seconds", "nanoseconds", "tz_id", "days"],
            };
            assert(names(e->expected) =~= seq!["seconds"@, "nanoseconds"@, "tz_id"@, "days"@]);
            return Err(e);
        }
        if self.tz_id.is_set() {
            let e = DeError::UnknownField {
                field: text("tz_id"),
                expected: &["seconds", "nanoseconds", "tz_offset_seconds", "days"],
            };
            assert(names(e->expected) =~= seq!["seconds"@, "nanoseconds"@, "tz_offset_seconds"@, "days"@]);
            return Err(e);
        }
        if self.days.is_set() {
            let e = DeError::UnknownField {
                field: text("days"),
                expected: &["seconds", "nanoseconds", "tz_offset_seconds", "tz_id"],
            };
            assert(names(e->expected) =~= seq!["seconds"@, "nanoseconds"@, "tz_offset_seconds"@, "tz_id"@]);
            return Err(e);
        }
        Ok(())
    }

    /// Builds the value from the fields it takes; a field that is left set
    /// is an unknown field for it.
    pub fn finish<T: DateTimeIsh>(self) -> (r: Result<T, DeError>)
        ensures
            match T::build_result(self) {
                Err(e) => r matches Err(x) && x@ == e,
                Ok(v) => match leftover_error(T::build_rest(self)) {
                    Some(e) => r matches Err(x) && x@ == e,
                    None => r == Ok::<T, DeError>(v),
                },
            },
    {
        let mut builder = self;
        let res = match T::build(&mut builder) {
            Ok(v) => v,
            Err(e) => return Err(e),
        };
        match builder.leftover() {
            Ok(()) => Ok(res),
            Err(e) => Err(e),
        }
    }
}

/// A temporal value that its fields build.
pub trait DateTimeIsh: Sized {
    /// What building from the fields `b` gives: the value, or the error of
    /// the first field that it needs and that is missing.
    spec fn build_result(b: DateTimeIshBuilder) -> Result<Self, DeErrorModel>;

    /// The fields that are left once the value is built: those it takes
    /// are emptied.
    spec fn build_rest(b: DateTimeIshBuilder) -> DateTimeIshBuilder;

    /// Builds the value, taking its fields out of `builder`.
    fn build(builder: &mut DateTimeIshBuilder) -> (r: Result<Self, DeError>)
        ensures
            match Self::build_result(*old(builder)) {
                Ok(v) => r == Ok::<Self, DeError>(v) && *final(builder) == Self::build_rest(*old(builder)),
                Err(e) => r matches Err(x) && x@ == e,
            },
    ;
}

/// Takes a required field out of its slot.
fn take_field<T>(slot: &mut SetOnce<T>, field: &'static str) -> (r: Result<T, DeError>)
    ensures
        *final(slot) is Empty,
        match *old(slot) {
            SetOnce::Filled(v) => r == Ok::<T, DeError>(v),
            SetOnce::Empty => r matches Err(e) && e@ == DeErrorModel::MissingField { field: field@ },
        },
{
    match slot.take() {
        Some(v) => Ok(v),
        None => Err(DeError::MissingField { field }),
    }
}


impl DateTimeIsh for BoltDateTime {
    open spec fn build_result(b: DateTimeIshBuilder) -> Result<BoltDateTime, DeErrorModel> {
        if b.seconds is Filled && b.nanoseconds is Filled && b.tz_offset_seconds is Filled {
            Ok(BoltDateTime { seconds: b.seconds->0, nanoseconds: b.nanoseconds->0, tz_offset_seconds: b.tz_offset_seconds->0 })
        } else if b.seconds is Empty {
            Err(DeErrorModel::MissingField { field: "seconds"@ })
        } else if b.seconds is Filled && b.nanoseconds is Empty {
            Err(DeErrorModel::MissingField { field: "nanoseconds"@ })
        } else {
            Err(DeErrorModel::MissingField { field: "tz_offset_seconds"@ })
        }
    }

    open spec fn build_rest(b: DateTimeIshBuilder) -> DateTimeIshBuilder {
        DateTimeIshBuilder { seconds: SetOnce::Empty, nanoseconds: SetOnce::Empty, tz_offset_seconds: SetOnce::Empty, ..b }
    }

    fn build(builder: &mut DateTimeIshBuilder) -> (r: Result<BoltDateTime, DeError>) {
        let seconds = match take_field(&mut builder.seconds, "seconds") {
            Ok(v) => v,
            Err(e) => return Err(e),
        };
        let nanoseconds = match take_field(&mut builder.nanoseconds, "nanoseconds") {
            Ok(v) => v,
            Err(e) => return Err(e),
        };
        let tz_offset_seconds = match take_field(&mut builder.tz_offset_seconds, "tz_offset_seconds") {
            Ok(v) => v,
            Err(e) => return Err(e),
        };
        Ok(BoltDateTime { seconds, nanoseconds, tz_offset_seconds })
    }
}

impl DateTimeIsh for BoltLocalDateTime {
    open spec fn build_result(b: DateTimeIshBuilder) -> Result<BoltLocalDateTime, DeErrorModel> {
        if b.seconds is Filled && b.nanoseconds is Filled {
            Ok(BoltLocalDateTime { seconds: b.seconds->0, nanoseconds: b.nanoseconds->0 })
        } else if b.seconds is Empty {
            Err(DeErrorModel::MissingField { field: "seconds"@ })
        } else {
            Err(DeErrorModel::MissingField { field: "nanoseconds"@ })
        }
    }

    open spec fn build_rest(b: DateTimeIshBuilder) -> DateTimeIshBuilder {
        DateTimeIshBuilder { seconds: SetOnce::Empty, nanoseconds: SetOnce::Empty, ..b }
    }

    fn build(builder: &mut DateTimeIshBuilder) -> (r: Result<BoltLocalDateTime, DeError>) {
        let seconds = match take_field(&mut builder.seconds, "seconds") {
            Ok(v) => v,
            Err(e) => return Err(e),
        };
        let nanoseconds = match take_field(&mut builder.nanoseconds, "nanoseconds") {
            Ok(v) => v,
            Err(e) => return Err(e),
        };
        Ok(BoltLocalDateTime { seconds, nanoseconds })
    }
}

impl DateTimeIsh for BoltDateTimeZoneId {
    open spec fn build_result(b: DateTimeIshBuilder) -> Result<BoltDateTimeZoneId, DeErrorModel> {
        if b.seconds is Filled && b.nanoseconds is Filled && b.tz_id is Filled {
            Ok(BoltDateTimeZoneId { seconds: b.seconds->0, nanoseconds: b.nanoseconds->0, tz_id: b.tz_id->0 })
        } else if b.seconds is Empty {
            Err(DeErrorModel::MissingField { field: "seconds"@ })
        } else if b.seconds is Filled && b.nanoseconds is Empty {
            Err(DeErrorModel::MissingField { field: "nanoseconds"@ })
        } else {
            Err(DeErrorModel::MissingField { field: "tz_id"@ })
        }
    }

    open spec fn build_rest(b: DateTimeIshBuilder) -> DateTimeIshBuilder {
        DateTimeIshBuilder { seconds: SetOnce::Empty, nanoseconds: SetOnce::Empty, tz_id: SetOnce::Empty, ..b }
    }

    fn build(builder: &mut DateTimeIshBuilder) -> (r: Result<BoltDateTimeZoneId, DeError>) {
        let seconds = match take_field(&mut builder.seconds, "seconds") {
            Ok(v) => v,
            Err(e) => return Err(e),
        };
        let nanoseconds = match take_field(&mut builder.nanoseconds, "nanoseconds") {
            Ok(v) => v,
            Err(e) => return Err(e),
        };
        let tz_id = match take_field(&mut builder.tz_id, "tz_id") {
            Ok(v) => v,
            Err(e) => return Err(e),
        };
        Ok(BoltDateTimeZoneId { seconds, nanoseconds, tz_id })
    }
}

impl DateTimeIsh for BoltTime {
    open spec fn build_result(b: DateTimeIshBuilder) -> Result<BoltTime, DeErrorModel> {
        if b.nanoseconds is Filled && b.tz_offset_seconds is Filled {
            Ok(BoltTime { nanoseconds: b.nanoseconds->0, tz_offset_seconds: b.tz_offset_seconds->0 })
        } else if b.nanoseconds is Empty {
            Err(DeErrorModel::MissingField { field: "nanoseconds"@ })
        } else {
            Err(DeErrorModel::MissingField { field: "tz_offset_seconds"@ })
        }
    }

    open spec fn build_rest(b: DateTimeIshBuilder) -> DateTimeIshBuilder {
        DateTimeIshBuilder { nanoseconds: SetOnce::Empty, tz_offset_seconds: SetOnce::Empty, ..b }
    }

    fn build(builder: &mut DateTimeIshBuilder) -> (r: Result<BoltTime, DeError>) {
        let nanoseconds = match take_field(&mut builder.nanoseconds, "nanoseconds") {
            Ok(v) => v,
            Err(e) => return Err(e),
        };
        let tz_offset_seconds = match take_field(&mut builder.tz_offset_seconds, "tz_offset_seconds") {
            Ok(v) => v,
            Err(e) => return Err(e),
        };
        Ok(BoltTime { nanoseconds, tz_offset_seconds })
    }
}

impl DateTimeIsh for BoltLocalTime {
    open spec fn build_result(b: DateTimeIshBuilder) -> Result<BoltLocalTime, DeErrorModel> {
        if b.nanoseconds is Filled {
            Ok(BoltLocalTime { nanoseconds: b.nanoseconds->0 })
        } else {
            Err(DeErrorModel::MissingField { field: "nanoseconds"@ })
        }
    }

    open spec fn build_rest(b: DateTimeIshBuilder) -> DateTimeIshBuilder {
        DateTimeIshBuilder { nanoseconds: SetOnce::Empty, ..b }
    }

    fn build(builder: &mut DateTimeIshBuilder) -> (r: Result<BoltLocalTime, DeError>) {
        let nanoseconds = match take_field(&mut builder.nanoseconds, "nanoseconds") {
            Ok(v) => v,
            Err(e) => return Err(e),
        };
        Ok(BoltLocalTime { nanoseconds })
    }
}

impl DateTimeIsh for BoltDate {
    open spec fn build_result(b: DateTimeIshBuilder) -> Result<BoltDate, DeErrorModel> {
        if b.days is Filled {
            Ok(BoltDate { days: b.days->0 })
        } else {
            Err(DeErrorModel::MissingField { field: "days"@ })
        }
    }

    open spec fn build_rest(b: DateTimeIshBuilder) -> DateTimeIshBuilder {
        DateTimeIshBuilder { days: SetOnce::Empty, ..b }
    }

    fn build(builder: &mut DateTimeIshBuilder) -> (r: Result<BoltDate, DeError>) {
        let days = match take_field(&mut builder.days, "days") {
            Ok(v) => v,
            Err(e) => return Err(e),
        };
        Ok(BoltDate { days })
    }
}


// ---------------------------------------------------------------- durations

/// The fields of a duration.
#[derive(Debug, Clone, Copy, PartialEq, Eq, Structural)]
pub enum DurationFields {
    Months,
    Days,
    Seconds,
    NanoSeconds,
}

/// The slots of the fields of a duration while it is read.
#[derive(Debug, Clone)]
pub struct DurationBuilder {
    pub months: SetOnce<BoltInteger>,
    pub days: SetOnce<BoltInteger>,
    pub seconds: SetOnce<BoltInteger>,
    pub nanoseconds: SetOnce<BoltInteger>,
}

impl Default for DurationBuilder {
    fn default() -> (r: DurationBuilder)
        ensures
            r.months is Empty,
            r.days is Empty,
            r.seconds is Empty,
            r.nanoseconds is Empty,
    {
        DurationBuilder { months: SetOnce::Empty, days: SetOnce::Empty, seconds: SetOnce::Empty, nanoseconds: SetOnce::Empty }
    }
}

/// Reading the field `key` of a duration into `before`, which leaves
/// `after` and answers `r`: a read error is passed on and a repeated field
/// refused.
pub open spec fn duration_field_read<F: FnOnce() -> Result<BoltInteger, DeError>>(
    before: DurationBuilder,
    after: DurationBuilder,
    key: DurationFields,
    read: F,
    r: Result<(), DeError>,
) -> bool {
    match key {
        DurationFields::Months => after == (DurationBuilder { months: after.months, ..before })
            && read_once(before.months, after.months, read, r, "months"@),
        DurationFields::Days => after == (DurationBuilder { days: after.days, ..before })
            && read_once(before.days, after.days, read, r, "days"@),
        DurationFields::Seconds => after == (DurationBuilder { seconds: after.seconds, ..before })
            && read_once(before.seconds, after.seconds, read, r, "seconds"@),
        DurationFields::NanoSeconds => after == (DurationBuilder { nanoseconds: after.nanoseconds, ..before })
            && read_once(before.nanoseconds, after.nanoseconds, read, r, "nanoseconds"@),
    }
}

impl DurationBuilder {
    /// Reads the field `key`; see `duration_field_read`.
    pub fn read_field(&mut self, key: DurationFields, read: impl FnOnce() -> Result<BoltInteger, DeError>) -> (r: Result<(), DeError>)
        requires
            read.requires(()),
        ensures
            duration_field_read(*old(self), *final(self), key, read, r),
    {
        match key {
            DurationFields::Months => set_once(&mut self.months, read, "months"),
            DurationFields::Days => set_once(&mut self.days, read, "days"),
            DurationFields::Seconds => set_once(&mut self.seconds, read, "seconds"),
            DurationFields::NanoSeconds => set_once(&mut self.nanoseconds, read, "nanoseconds"),
        }
    }

    /// The duration, or the error of the first field that is missing.
    pub fn build(self) -> (r: Result<BoltDuration, DeError>)
        ensures
            self.months is Empty ==> (r matches Err(e) && e@ == DeErrorModel::MissingField { field: "months"@ }),
            self.months is Filled && self.days is Empty ==> (r matches Err(e) && e@ == DeErrorModel::MissingField {
                field: "days"@,
            }),
            self.months is Filled && self.days is Filled && self.seconds is Empty ==> (r matches Err(e) && e@
                == DeErrorModel::MissingField { field: "seconds"@ }),
            self.months is Filled && self.days is Filled && self.seconds is Filled && self.nanoseconds is Empty ==> (
            r matches Err(e) && e@ == DeErrorModel::MissingField { field: "nanoseconds"@ }),
            self.months is Filled && self.days is Filled && self.seconds is Filled && self.nanoseconds is Filled ==> r
                == Ok::<BoltDuration, DeError>(
                BoltDuration {
                    months: self.months->0,
                    days: self.days->0,
                    seconds: self.seconds->0,
                    nanoseconds: self.nanoseconds->0,
                },
            ),
    {
        let mut b = self;
        let months = match take_field(&mut b.months, "months") {
            Ok(v) => v,
            Err(e) => return Err(e),
        };
        let days = match take_field(&mut b.days, "days") {
            Ok(v) => v,
            Err(e) => return Err(e),
        };
        let seconds = match take_field(&mut b.seconds, "seconds") {
            Ok(v) => v,
            Err(e) => return Err(e),
        };
        let nanoseconds = match take_field(&mut b.nanoseconds, "nanoseconds") {
            Ok(v) => v,
            Err(e) => return Err(e),
        };
        Ok(BoltDuration { months, days, seconds, nanoseconds })
    }
}

// ---------------------------------------------------------------- points

/// The fields of a point.
#[derive(Debug, Clone, Copy, PartialEq, Eq, Structural)]
pub enum PointFields {
    SrId,
    X,
    Y,
    Z,
}

/// The slots of the fields of a point while it is read.
#[derive(Debug, Clone)]
pub struct BoltPointBuilder {
    pub sr_id: SetOnce<BoltInteger>,
    pub x: SetOnce<BoltFloat>,
    pub y: SetOnce<BoltFloat>,
    pub z: SetOnce<BoltFloat>,
}

impl Default for BoltPointBuilder {
    fn default() -> (r: BoltPointBuilder)
        ensures
            r.sr_id is Empty,
            r.x is Empty,
            r.y is Empty,
            r.z is Empty,
    {
        BoltPointBuilder { sr_id: SetOnce::Empty, x: SetOnce::Empty, y: SetOnce::Empty, z: SetOnce::Empty }
    }
}

/// Reading the field `key` of a point into `before`, which leaves `after`
/// and answers `r`: the id of the reference system reads through
/// `read_id`, a coordinate through `read_coordinate`; a read error is
/// passed on and a repeated field refused.
pub open spec fn point_field_read<FI, FF>(
    before: BoltPointBuilder,
    after: BoltPointBuilder,
    key: PointFields,
    read_id: FI,
    read_coordinate: FF,
    r: Result<(), DeError>,
) -> bool where
    FI: FnOnce() -> Result<BoltInteger, DeError>,
    FF: FnOnce() -> Result<BoltFloat, DeError>,
 {
    match key {
        PointFields::SrId => after == (BoltPointBuilder { sr_id: after.sr_id, ..before })
            && read_once(before.sr_id, after.sr_id, read_id, r, "sr_id"@),
        PointFields::X => after == (BoltPointBuilder { x: after.x, ..before })
            && read_once(before.x, after.x, read_coordinate, r, "x"@),
        PointFields::Y => after == (BoltPointBuilder { y: after.y, ..before })
            && read_once(before.y, after.y, read_coordinate, r, "y"@),
        PointFields::Z => after == (BoltPointBuilder { z: after.z, ..before })
            && read_once(before.z, after.z, read_coordinate, r, "z"@),
    }
}

impl BoltPointBuilder {
    /// Reads the field `key`; see `point_field_read`.
    pub fn read_field(
        &mut self,
        key: PointFields,
        read_id: impl FnOnce() -> Result<BoltInteger, DeError>,
        read_coordinate: impl FnOnce() -> Result<BoltFloat, DeError>,
    ) -> (r: Result<(), DeError>)
        requires
            read_id.requires(()),
            read_coordinate.requires(()),
        ensures
            point_field_read(*old(self), *final(self), key, read_id, read_coordinate, r),
    {
        match key {
            PointFields::SrId => set_once(&mut self.sr_id, read_id, "sr_id"),
            PointFields::X => set_once(&mut self.x, read_coordinate, "x"),
            PointFields::Y => set_once(&mut self.y, read_coordinate, "y"),
            PointFields::Z => set_once(&mut self.z, read_coordinate, "z"),
        }
    }

    /// The point in two dimensions; a third coordinate is an unknown
    /// field, and then the first missing field is the error.
    pub fn build_2d(self) -> (r: Result<BoltPoint2D, DeError>)
        ensures
            self.z is Filled ==> (r matches Err(e) && e@ == DeErrorModel::UnknownField {
                field: "z"@,
                expected: seq!["sr_id"@, "x"@, "y"@],
            }),
            self.z is Empty && self.sr_id is Empty ==> (r matches Err(e) && e@ == DeErrorModel::MissingField {
                field: "sr_id"@,
            }),
            self.z is Empty && self.sr_id is Filled && self.x is Empty ==> (r matches Err(e) && e@
                == DeErrorModel::MissingField { field: "x"@ }),
            self.z is Empty && self.sr_id is Filled && self.x is Filled && self.y is Empty ==> (r matches Err(e) && e@
                == DeErrorModel::MissingField { field: "y"@ }),
            self.z is Empty && self.sr_id is Filled && self.x is Filled && self.y is Filled ==> r == Ok::<
                BoltPoint2D,
                DeError,
            >(BoltPoint2D { sr_id: self.sr_id->0, x: self.x->0, y: self.y->0 }),
    {
        if self.z.is_set() {
            let e = DeError::UnknownField { field: text("z"), expected: &["sr_id", "x", "y"] };
            assert(names(e->expected) =~= seq!["sr_id"@, "x"@, "y"@]);
            return Err(e);
        }
        let mut b = self;
        let sr_id = match take_field(&mut b.sr_id, "sr_id") {
            Ok(v) => v,
            Err(e) => return Err(e),
        };
        let x = match take_field(&mut b.x, "x") {
            Ok(v) => v,
            Err(e) => return Err(e),
        };
        let y = match take_field(&mut b.y, "y") {
            Ok(v) => v,
            Err(e) => return Err(e),
        };
        Ok(BoltPoint2D { sr_id, x, y })
    }

    /// The point in three dimensions, or the error of the first field that
    /// is missing.
    pub fn build_3d(self) -> (r: Result<BoltPoint3D, DeError>)
        ensures
            self.sr_id is Empty ==> (r matches Err(e) && e@ == DeErrorModel::MissingField { field: "sr_id"@ }),
            self.sr_id is Filled && self.x is Empty ==> (r matches Err(e) && e@ == DeErrorModel::MissingField {
                field: "x"@,
            }),
            self.sr_id is Filled && self.x is Filled && self.y is Empty ==> (r matches Err(e) && e@
                == DeErrorModel::MissingField { field: "y"@ }),
            self.sr_id is Filled && self.x is Filled && self.y is Filled && self.z is Empty ==> (r matches Err(e) && e@
                == DeErrorModel::MissingField { field: "z"@ }),
            self.sr_id is Filled && self.x is Filled && self.y is Filled && self.z is Filled ==> r == Ok::<
                BoltPoint3D,
                DeError,
            >(BoltPoint3D { sr_id: self.sr_id->0, x: self.x->0, y: self.y->0, z: self.z->0 }),
    {
        let mut b = self;
        let sr_id = match take_field(&mut b.sr_id, "sr_id") {
            Ok(v) => v,
            Err(e) => return Err(e),
        };
        let x = match take_field(&mut b.x, "x") {
            Ok(v) => v,
            Err(e) => return Err(e),
        };
        let y = match take_field(&mut b.y, "y") {
            Ok(v) => v,
            Err(e) => return Err(e),
        };
        let z = match take_field(&mut b.z, "z") {
            Ok(v) => v,
            Err(e) => return Err(e),
        };
        Ok(BoltPoint3D { sr_id, x, y, z })
    }
}

} // verus!
