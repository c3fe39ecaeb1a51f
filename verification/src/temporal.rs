//! Temporal values and the date and time types of `chrono`, which the
//! library sees as the plain values that those types hold.
use vstd::prelude::*;
use chrono::{Datelike, Days, FixedOffset, NaiveDate, NaiveDateTime, NaiveTime, Offset};
use crate::errors::Error;
use crate::model::ErrorModel;
use crate::types::{BoltDate, BoltDateTime, BoltDateTimeZoneId, BoltInteger, BoltLocalDateTime, BoltLocalTime, BoltString, BoltTime};

verus! {

/// A calendar date of the proleptic Gregorian calendar, as a
/// `chrono::NaiveDate` holds it.
#[derive(Debug, PartialEq, Eq, Clone, Copy, Structural)]
pub struct CivilDate {
    pub year: i32,
    pub month: u32,
    pub day: u32,
}

/// A time of day, as a `chrono::NaiveTime` holds it: the whole seconds
/// since midnight and the nanoseconds past them (two billion at most, in a
/// leap second).
#[derive(Debug, PartialEq, Eq, Clone, Copy, Structural)]
pub struct TimeOfDay {
    pub seconds: u32,
    pub nanoseconds: u32,
}

/// A date and time of day without a zone, as a `chrono::NaiveDateTime`
/// holds it: the seconds since 1970-01-01T00:00:00 and the nanoseconds past
/// them.
#[derive(Debug, PartialEq, Eq, Clone, Copy, Structural)]
pub struct LocalDateTime {
    pub seconds: i64,
    pub nanoseconds: u32,
}

/// A date and time with a fixed offset, as a `chrono::DateTime<FixedOffset>`
/// holds it: the seconds of the instant since 1970-01-01T00:00:00 UTC, the
/// nanoseconds past them, and the offset in seconds east of UTC.
#[derive(Debug, PartialEq, Eq, Clone, Copy, Structural)]
pub struct OffsetDateTime {
    pub seconds: i64,
    pub nanoseconds: u32,
    pub offset_seconds: i32,
}

// ---------------------------------------------------------------- chrono

/// The days from the date `base` to the date `date`, if both are dates.
pub uninterp spec fn days_between(date: CivilDate, base: CivilDate) -> Option<i64>;

/// The date `days` days after the date `base`, if both are in range.
pub uninterp spec fn date_plus(base: CivilDate, days: u64) -> Option<CivilDate>;

/// The date `days` days before the date `base`, if both are in range.
pub uninterp spec fn date_minus(base: CivilDate, days: u64) -> Option<CivilDate>;

/// Whether a date and time has `seconds` since 1970-01-01T00:00:00 and
/// `nanoseconds` past them.
pub uninterp spec fn valid_timestamp(seconds: i64, nanoseconds: u32) -> bool;

/// The offset, in seconds east of UTC, that the zone of IANA name `zone`
/// has at the earliest instant whose local date and time has `seconds`
/// since 1970-01-01T00:00:00 and `nanoseconds` past them, if the zone is
/// known and there is such an instant.
pub uninterp spec fn zone_offset(zone: Seq<char>, seconds: i64, nanoseconds: u32) -> Option<i32>;

/// `NaiveTime::from_num_seconds_from_midnight_opt` accepts a time of day:
/// less than a day, less than two billion nanoseconds, and more than a
/// billion only in the last second of a minute.
pub open spec fn time_of_day_exists(seconds: u32, nanoseconds: u32) -> bool {
    &&& seconds < 86_400
    &&& nanoseconds < 2_000_000_000
    &&& nanoseconds >= 1_000_000_000 ==> seconds % 60 == 59
}

/// The seconds of every date and time that `chrono` holds lie within
/// 2^43 seconds of the epoch.
pub open spec fn timestamp_bound() -> int {
    8_796_093_022_208
}

/// `NaiveDate::from_ymd_opt` of both dates and
/// `date.signed_duration_since(base).num_days()`; adding that many days to
/// `base` (or taking them away, where they are negative) gives `date`
/// again, as chrono's `checked_add_days` and `checked_sub_days` invert
/// `signed_duration_since`.
#[verifier::external_body]
fn days_since(date: CivilDate, base: CivilDate) -> (r: Option<i64>)
    ensures
        r == days_between(date, base),
        r matches Some(n) ==> (n >= 0 ==> date_plus(base, n as u64) == Some(date)) && (n < 0 ==> date_minus(
            base,
            (-n) as u64,
        ) == Some(date)),
{
    match NaiveDate::from_ymd_opt(date.year, date.month, date.day) {
        Some(d) => match NaiveDate::from_ymd_opt(base.year, base.month, base.day) {
            Some(b) => Some(d.signed_duration_since(b).num_days()),
            None => None,
        },
        None => None,
    }
}

/// `NaiveDate::from_ymd_opt` of `base` and `checked_add_days`; the date it
/// gives lies `days` days after `base`.
#[verifier::external_body]
fn add_days(base: CivilDate, days: u64) -> (r: Option<CivilDate>)
    ensures
        r == date_plus(base, days),
        r matches Some(d) ==> days_between(d, base) == Some(days as i64),
{
    match NaiveDate::from_ymd_opt(base.year, base.month, base.day) {
        Some(b) => match b.checked_add_days(Days::new(days)) {
            Some(d) => Some(CivilDate { year: d.year(), month: d.month(), day: d.day() }),
            None => None,
        },
        None => None,
    }
}

/// `NaiveDate::from_ymd_opt` of `base` and `checked_sub_days`; the date it
/// gives lies `days` days before `base`.
#[verifier::external_body]
fn sub_days(base: CivilDate, days: u64) -> (r: Option<CivilDate>)
    ensures
        r == date_minus(base, days),
        r matches Some(d) ==> days_between(d, base) == Some((-days) as i64),
{
    match NaiveDate::from_ymd_opt(base.year, base.month, base.day) {
        Some(b) => match b.checked_sub_days(Days::new(days)) {
            Some(d) => Some(CivilDate { year: d.year(), month: d.month(), day: d.day() }),
            None => None,
        },
        None => None,
    }
}

/// `NaiveTime::from_num_seconds_from_midnight_opt` succeeds exactly on the
/// times of day of `time_of_day_exists`.
#[verifier::external_body]
fn time_of_day_valid(seconds: u32, nanoseconds: u32) -> (r: bool)
    ensures
        r == time_of_day_exists(seconds, nanoseconds),
{
    NaiveTime::from_num_seconds_from_midnight_opt(seconds, nanoseconds).is_some()
}

/// `FixedOffset::east_opt` succeeds exactly on offsets of less than a day
/// either way.
#[verifier::external_body]
pub(crate) fn offset_valid(seconds: i32) -> (r: bool)
    ensures
        r == (-86_400 < seconds < 86_400),
{
    FixedOffset::east_opt(seconds).is_some()
}

/// `NaiveDateTime::from_timestamp_opt`: it succeeds only with less than two
/// billion nanoseconds and within the range of dates that `chrono` holds.
#[verifier::external_body]
#[allow(deprecated)]
fn timestamp_valid(seconds: i64, nanoseconds: u32) -> (r: bool)
    ensures
        r == valid_timestamp(seconds, nanoseconds),
        r ==> nanoseconds < 2_000_000_000 && -timestamp_bound() < seconds < timestamp_bound(),
{
    NaiveDateTime::from_timestamp_opt(seconds, nanoseconds).is_some()
}

/// The zone of an IANA name (`chrono_tz::Tz` from `str`), the local date
/// and time of a timestamp (`NaiveDateTime::from_timestamp_opt`), the
/// earliest instant with that local date and time in the zone
/// (`and_local_timezone(..).earliest()`), and the offset that the zone has
/// then (`offset().fix().local_minus_utc()`), less than a day either way.
#[verifier::external_body]
#[allow(deprecated)]
fn offset_in_zone(zone: &str, seconds: i64, nanoseconds: u32) -> (r: Option<i32>)
    ensures
        r == zone_offset(zone@, seconds, nanoseconds),
        r is Some ==> valid_timestamp(seconds, nanoseconds) && -timestamp_bound() < seconds < timestamp_bound(),
        r matches Some(o) ==> -86_400 < o < 86_400,
{
    let tz: chrono_tz::Tz = match zone.parse() {
        Ok(tz) => tz,
        Err(_) => return None,
    };
    match NaiveDateTime::from_timestamp_opt(seconds, nanoseconds) {
        Some(dt) => match dt.and_local_timezone(tz).earliest() {
            Some(instant) => Some(instant.offset().fix().local_minus_utc()),
            None => None,
        },
        None => None,
    }
}

/// The nanoseconds since the epoch of a date and time, if they fit an
/// `i64`.
pub open spec fn nanos_since_epoch(seconds: i64, nanoseconds: u32) -> Option<i64> {
    let t = seconds * 1_000_000_000 + nanoseconds;
    if i64::MIN <= t <= i64::MAX {
        Some(t as i64)
    } else {
        None
    }
}

/// `NaiveDateTime::from_timestamp_opt` and `timestamp_nanos_opt` of the
/// result: the nanoseconds since the epoch where they fit an `i64`.
#[verifier::external_body]
#[allow(deprecated)]
pub(crate) fn timestamp_nanos(seconds: i64, nanoseconds: u32) -> (r: Option<i64>)
    ensures
        valid_timestamp(seconds, nanoseconds) ==> r == nanos_since_epoch(seconds, nanoseconds),
        !valid_timestamp(seconds, nanoseconds) ==> r is None,
{
    match NaiveDateTime::from_timestamp_opt(seconds, nanoseconds) {
        Some(dt) => dt.and_utc().timestamp_nanos_opt(),
        None => None,
    }
}

/// The text of a date (`NaiveDate`'s `Display`: year, month and day).
pub uninterp spec fn date_display(d: CivilDate) -> Seq<char>;

/// The text of a time of day (`NaiveTime`'s `Display`).
pub uninterp spec fn time_display(t: TimeOfDay) -> Seq<char>;

/// The text of a date and time without a zone (`NaiveDateTime`'s `Debug`).
pub uninterp spec fn local_display(l: LocalDateTime) -> Seq<char>;

/// The RFC 3339 text of a date and time with an offset (`to_rfc3339`), if
/// `chrono` holds its instant.
pub uninterp spec fn rfc3339_display(o: OffsetDateTime) -> Option<Seq<char>>;

/// `NaiveDate`'s `Display`.
#[verifier::external_body]
pub(crate) fn date_text(d: CivilDate) -> (r: String)
    requires
        exists|base: CivilDate| (#[trigger] days_between(d, base)) is Some,
    ensures
        r@ == date_display(d),
{
    NaiveDate::from_ymd_opt(d.year, d.month, d.day).expect("an existing date").to_string()
}

/// `NaiveTime`'s `Display`.
#[verifier::external_body]
pub(crate) fn time_text(t: TimeOfDay) -> (r: String)
    requires
        time_of_day_exists(t.seconds, t.nanoseconds),
    ensures
        r@ == time_display(t),
{
    NaiveTime::from_num_seconds_from_midnight_opt(t.seconds, t.nanoseconds).expect("a time of day").to_string()
}

/// `NaiveDateTime`'s `Debug`.
#[verifier::external_body]
#[allow(deprecated)]
pub(crate) fn local_text(l: LocalDateTime) -> (r: String)
    requires
        valid_timestamp(l.seconds, l.nanoseconds),
    ensures
        r@ == local_display(l),
{
    format!("{:?}", NaiveDateTime::from_timestamp_opt(l.seconds, l.nanoseconds).expect("a valid timestamp"))
}

/// `DateTime::from_timestamp`, `with_timezone` to the offset
/// (`FixedOffset::east_opt`) and `to_rfc3339`; `None` where the instant
/// is out of range.
#[verifier::external_body]
pub(crate) fn rfc3339_text(o: OffsetDateTime) -> (r: Option<String>)
    requires
        -86_400 < o.offset_seconds < 86_400,
    ensures
        r matches Some(t) ==> rfc3339_display(o) == Some(t@),
        r is None ==> rfc3339_display(o) is None,
{
    let offset = FixedOffset::east_opt(o.offset_seconds).expect("an offset of less than a day");
    match chrono::DateTime::from_timestamp(o.seconds, o.nanoseconds) {
        Some(dt) => Some(dt.with_timezone(&offset).to_rfc3339()),
        None => None,
    }
}

// ---------------------------------------------------------------- dates

/// The first day of 1970, from which PackStream counts the days of a date.
pub open spec fn epoch_date() -> CivilDate {
    CivilDate { year: 1970, month: 1, day: 1 }
}

/// The first day of 1970.
fn epoch() -> (r: CivilDate)
    ensures
        r == epoch_date(),
{
    CivilDate { year: 1970, month: 1, day: 1 }
}

/// The days from 1970-01-01 to the date of `year`, `month` and `day`, if
/// there is such a date.
pub open spec fn days_of_date(year: i32, month: u32, day: u32) -> Option<i64> {
    days_between(CivilDate { year, month, day }, epoch_date())
}

/// The date `days` days from 1970-01-01, if it is in range.
pub open spec fn date_of_days(days: i64) -> Option<CivilDate> {
    if days >= 0 {
        date_plus(epoch_date(), days as u64)
    } else {
        date_minus(epoch_date(), (-days) as u64)
    }
}

impl BoltDate {
    /// The date as days since 1970-01-01, which reads back as the date.
    pub fn from_date(value: CivilDate) -> (r: BoltDate)
        requires
            days_of_date(value.year, value.month, value.day) is Some,
        ensures
            Some(r.days.value) == days_of_date(value.year, value.month, value.day),
            date_of_days(r.days.value) == Some(value),
    {
        let days = match days_since(value, epoch()) {
            Some(d) => d,
            None => vstd::pervasive::unreached(),
        };
        BoltDate { days: BoltInteger::new(days) }
    }

    /// The date as days since 1970-01-01, or `None` where the year, month
    /// and day name no date.
    pub fn try_from_date(value: CivilDate) -> (r: Option<BoltDate>)
        ensures
            match days_of_date(value.year, value.month, value.day) {
                Some(d) => r matches Some(b) && b.days.value == d && date_of_days(d) == Some(value),
                None => r is None,
            },
    {
        match days_since(value, epoch()) {
            Some(_) => Some(BoltDate::from_date(value)),
            None => None,
        }
    }

    /// The calendar date, or a conversion error out of range.
    pub fn try_to_chrono(&self) -> (r: Result<CivilDate, Error>)
        ensures
            match date_of_days(self.days.value) {
                Some(d) => r == Ok::<CivilDate, Error>(d),
                None => r matches Err(e) && e@ == ErrorModel::ConversionError,
            },
            r matches Ok(d) ==> days_of_date(d.year, d.month, d.day) is Some,
    {
        let days = self.days.value;
        let date = if days >= 0 {
            add_days(epoch(), days as u64)
        } else {
            let magnitude: u64 = (-(days + 1)) as u64 + 1;
            sub_days(epoch(), magnitude)
        };
        match date {
            Some(d) => Ok(d),
            None => Err(Error::ConversionError),
        }
    }
}

// ---------------------------------------------------------------- times

/// The quotient of `n` by `d` rounded toward zero, as Rust divides.
pub open spec fn quot(n: int, d: int) -> int {
    if n >= 0 {
        n / d
    } else {
        -((-n) / d)
    }
}

/// The remainder of `n` by `d` with the sign of `n`, as Rust divides.
pub open spec fn rem(n: int, d: int) -> int {
    n - d * quot(n, d)
}

/// The time of day that nanoseconds since midnight read as: the whole
/// seconds and the nanoseconds past them, each cast to `u32`.
pub open spec fn time_of_nanos(n: i64) -> TimeOfDay {
    TimeOfDay {
        seconds: quot(n as int, 1_000_000_000) as u32,
        nanoseconds: rem(n as int, 1_000_000_000) as u32,
    }
}

/// The nanoseconds since midnight of a time of day.
pub open spec fn nanos_of_time(t: TimeOfDay) -> int {
    t.seconds * 1_000_000_000 + t.nanoseconds
}

/// Splits nanoseconds since midnight into whole seconds and the
/// nanoseconds past them, rounding toward zero.
fn split_nanos(n: i64) -> (r: (i64, i64))
    ensures
        r.0 == quot(n as int, 1_000_000_000),
        r.1 == rem(n as int, 1_000_000_000),
{
    if n >= 0 {
        (n / 1_000_000_000, n % 1_000_000_000)
    } else {
        let m: i64 = -(n + 1);
        let q: i64 = m / 1_000_000_000;
        let r: i64 = m % 1_000_000_000;
        proof {
            assert((-(n as int)) / 1_000_000_000 == if r == 999_999_999 { q + 1 } else { q as int }) by (nonlinear_arith)
                requires
                    m == -(n + 1),
                    q == m / 1_000_000_000,
                    r == m % 1_000_000_000,
                    m >= 0,
            ;
        }
        if r == 999_999_999 {
            (-(q + 1), n + (q + 1) * 1_000_000_000)
        } else {
            (-q, n + q * 1_000_000_000)
        }
    }
}

/// The time of day that nanoseconds since midnight read as, if `chrono`
/// accepts it.
pub(crate) fn checked_time_of_nanos(n: i64) -> (r: Option<TimeOfDay>)
    ensures
        time_of_day_exists(time_of_nanos(n).seconds, time_of_nanos(n).nanoseconds) ==> r == Some(time_of_nanos(n)),
        !time_of_day_exists(time_of_nanos(n).seconds, time_of_nanos(n).nanoseconds) ==> r is None,
{
    let (secs, nanos) = split_nanos(n);
    let seconds = secs as u32;
    let nanoseconds = nanos as u32;
    if time_of_day_valid(seconds, nanoseconds) {
        Some(TimeOfDay { seconds, nanoseconds })
    } else {
        None
    }
}

impl BoltLocalTime {
    /// The time of day as nanoseconds since midnight.
    pub fn from_time(value: TimeOfDay) -> (r: BoltLocalTime)
        ensures
            r.nanoseconds.value == nanos_of_time(value),
    {
        let nanoseconds = value.seconds as i64 * 1_000_000_000 + value.nanoseconds as i64;
        BoltLocalTime { nanoseconds: BoltInteger::new(nanoseconds) }
    }

    /// The time of day of the nanoseconds since midnight; `chrono` refuses
    /// (and the conversion panics on) nanoseconds that do not read as one,
    /// which `requires` leaves out.
    pub fn to_chrono(&self) -> (r: TimeOfDay)
        requires
            time_of_day_exists(time_of_nanos(self.nanoseconds.value).seconds, time_of_nanos(self.nanoseconds.value).nanoseconds),
        ensures
            r == time_of_nanos(self.nanoseconds.value),
    {
        let (secs, nanos) = split_nanos(self.nanoseconds.value);
        let seconds = secs as u32;
        let nanoseconds = nanos as u32;
        if !time_of_day_valid(seconds, nanoseconds) {
            vstd::pervasive::unreached()
        } else {
            TimeOfDay { seconds, nanoseconds }
        }
    }
}

impl BoltTime {
    /// The time of day as nanoseconds since midnight, with its offset.
    pub fn from_time(value: TimeOfDay, offset_seconds: i32) -> (r: BoltTime)
        ensures
            r.nanoseconds.value == nanos_of_time(value),
            r.tz_offset_seconds.value == offset_seconds,
    {
        let local = BoltLocalTime::from_time(value);
        BoltTime { nanoseconds: local.nanoseconds, tz_offset_seconds: BoltInteger::new(offset_seconds as i64) }
    }

    /// The time of day and the offset; `chrono` refuses (and the conversion
    /// panics on) nanoseconds that do not read as a time of day and offsets
    /// of a day or more, which `requires` leaves out.
    pub fn to_chrono(&self) -> (r: (TimeOfDay, i32))
        requires
            time_of_day_exists(time_of_nanos(self.nanoseconds.value).seconds, time_of_nanos(self.nanoseconds.value).nanoseconds),
            -86_400 < (self.tz_offset_seconds.value as i32) < 86_400,
        ensures
            r == (time_of_nanos(self.nanoseconds.value), self.tz_offset_seconds.value as i32),
    {
        let time = BoltLocalTime { nanoseconds: BoltInteger::new(self.nanoseconds.value) }.to_chrono();
        let offset = self.tz_offset_seconds.value as i32;
        if !offset_valid(offset) {
            vstd::pervasive::unreached()
        } else {
            (time, offset)
        }
    }
}

// ---------------------------------------------------------------- dates and times

/// The value of a local date and time: its seconds and nanoseconds.
pub open spec fn local_value(l: LocalDateTime) -> BoltLocalDateTime {
    BoltLocalDateTime { seconds: BoltInteger { value: l.seconds }, nanoseconds: BoltInteger { value: l.nanoseconds as i64 } }
}

/// What a local date and time value reads as: its seconds and nanoseconds
/// (cast to `u32`) where `chrono` holds such a date and time, else a
/// conversion error.
pub open spec fn local_read(b: BoltLocalDateTime) -> Result<LocalDateTime, ErrorModel> {
    if valid_timestamp(b.seconds.value, b.nanoseconds.value as u32) {
        Ok(LocalDateTime { seconds: b.seconds.value, nanoseconds: b.nanoseconds.value as u32 })
    } else {
        Err(ErrorModel::ConversionError)
    }
}

/// The value of a date and time with an offset: the local seconds (the
/// seconds of the instant moved by the offset), the nanoseconds and the
/// offset.
pub open spec fn offset_value(o: OffsetDateTime) -> BoltDateTime {
    BoltDateTime {
        seconds: BoltInteger { value: (o.seconds + o.offset_seconds) as i64 },
        nanoseconds: BoltInteger { value: o.nanoseconds as i64 },
        tz_offset_seconds: BoltInteger { value: o.offset_seconds as i64 },
    }
}

/// What a date and time value with an offset reads as: the instant (the
/// local seconds moved back by the offset) and the offset cast to `i32`,
/// where the offset is less than a day and `chrono` holds the instant,
/// else a conversion error.
pub open spec fn offset_read(b: BoltDateTime) -> Result<OffsetDateTime, ErrorModel> {
    let seconds = (b.seconds.value - b.tz_offset_seconds.value) as i64;
    let nanoseconds = b.nanoseconds.value as u32;
    let offset = b.tz_offset_seconds.value as i32;
    if -86_400 < offset < 86_400 && valid_timestamp(seconds, nanoseconds) {
        Ok(OffsetDateTime { seconds, nanoseconds, offset_seconds: offset })
    } else {
        Err(ErrorModel::ConversionError)
    }
}

impl BoltLocalDateTime {
    /// The date and time as seconds since 1970-01-01T00:00:00 and the
    /// nanoseconds past them.
    pub fn from_local(value: LocalDateTime) -> (r: BoltLocalDateTime)
        ensures
            r == local_value(value),
    {
        BoltLocalDateTime { seconds: BoltInteger::new(value.seconds), nanoseconds: BoltInteger::new(value.nanoseconds as i64) }
    }

    /// The date and time, with the nanoseconds cast to `u32`, or a
    /// conversion error where `chrono` holds no such date and time.
    pub fn try_to_chrono(&self) -> (r: Result<LocalDateTime, Error>)
        ensures
            match local_read(*self) {
                Ok(l) => r == Ok::<LocalDateTime, Error>(l),
                Err(e) => r matches Err(x) && x@ == e,
            },
    {
        let seconds = self.seconds.value;
        let nanoseconds = self.nanoseconds.value as u32;
        if timestamp_valid(seconds, nanoseconds) {
            Ok(LocalDateTime { seconds, nanoseconds })
        } else {
            Err(Error::ConversionError)
        }
    }
}

impl BoltDateTime {
    /// The date and time as local seconds since 1970-01-01T00:00:00 (the
    /// seconds of the instant moved by the offset), the nanoseconds past
    /// them, and the offset.
    pub fn from_offset(value: OffsetDateTime) -> (r: BoltDateTime)
        requires
            i64::MIN <= value.seconds + value.offset_seconds <= i64::MAX,
        ensures
            r == offset_value(value),
    {
        BoltDateTime {
            seconds: BoltInteger::new(value.seconds + value.offset_seconds as i64),
            nanoseconds: BoltInteger::new(value.nanoseconds as i64),
            tz_offset_seconds: BoltInteger::new(value.offset_seconds as i64),
        }
    }

    /// The instant (the local seconds moved back by the offset) with its
    /// offset, or a conversion error where the offset, cast to `i32`, is a
    /// day or more, or `chrono` holds no such date and time.
    pub fn try_to_chrono(&self) -> (r: Result<OffsetDateTime, Error>)
        requires
            i64::MIN <= self.seconds.value - self.tz_offset_seconds.value <= i64::MAX,
        ensures
            match offset_read(*self) {
                Ok(o) => r == Ok::<OffsetDateTime, Error>(o),
                Err(e) => r matches Err(x) && x@ == e,
            },
    {
        let seconds = self.seconds.value - self.tz_offset_seconds.value;
        let offset = self.tz_offset_seconds.value as i32;
        if !offset_valid(offset) {
            return Err(Error::ConversionError);
        }
        let nanoseconds = self.nanoseconds.value as u32;
        if !timestamp_valid(seconds, nanoseconds) {
            return Err(Error::ConversionError);
        }
        Ok(OffsetDateTime { seconds, nanoseconds, offset_seconds: offset })
    }
}

impl BoltDateTimeZoneId {
    /// The local date and time in the zone of IANA name `zone`.
    pub fn from_local_in_zone(value: LocalDateTime, zone: &str) -> (r: BoltDateTimeZoneId)
        ensures
            r.seconds.value == value.seconds,
            r.nanoseconds.value == value.nanoseconds,
            r.tz_id.value@ == zone@,
    {
        BoltDateTimeZoneId {
            seconds: BoltInteger::new(value.seconds),
            nanoseconds: BoltInteger::new(value.nanoseconds as i64),
            tz_id: BoltString::new(zone),
        }
    }

    /// The local date and time, with the nanoseconds cast to `u32`, or a
    /// conversion error where `chrono` holds no such date and time.
    pub fn try_to_local(&self) -> (r: Result<LocalDateTime, Error>)
        ensures
            valid_timestamp(self.seconds.value, self.nanoseconds.value as u32) ==> r == Ok::<LocalDateTime, Error>(
                LocalDateTime { seconds: self.seconds.value, nanoseconds: self.nanoseconds.value as u32 },
            ),
            !valid_timestamp(self.seconds.value, self.nanoseconds.value as u32) ==> (r matches Err(e) && e@
                == ErrorModel::ConversionError),
    {
        let seconds = self.seconds.value;
        let nanoseconds = self.nanoseconds.value as u32;
        if timestamp_valid(seconds, nanoseconds) {
            Ok(LocalDateTime { seconds, nanoseconds })
        } else {
            Err(Error::ConversionError)
        }
    }

    /// The local date and time with the name of its zone, or a conversion
    /// error where `chrono` holds no such date and time.
    pub fn into_local_and_zone(self) -> (r: Result<(LocalDateTime, String), Error>)
        ensures
            valid_timestamp(self.seconds.value, self.nanoseconds.value as u32) ==> (r matches Ok((l, z)) && l
                == (LocalDateTime { seconds: self.seconds.value, nanoseconds: self.nanoseconds.value as u32 })
                && z@ == self.tz_id.value@),
            !valid_timestamp(self.seconds.value, self.nanoseconds.value as u32) ==> (r matches Err(e) && e@
                == ErrorModel::ConversionError),
    {
        match self.try_to_local() {
            Ok(local) => Ok((local, self.tz_id.value)),
            Err(e) => Err(e),
        }
    }

    /// The earliest instant whose local date and time in the zone is this
    /// one, with the offset that the zone has then; a conversion error where
    /// the zone is unknown, `chrono` holds no such date and time, or no
    /// instant has it.
    pub fn try_to_chrono(&self) -> (r: Result<OffsetDateTime, Error>)
        ensures
            match zone_offset(self.tz_id.value@, self.seconds.value, self.nanoseconds.value as u32) {
                Some(o) => r == Ok::<OffsetDateTime, Error>(
                    OffsetDateTime {
                        seconds: (self.seconds.value - o) as i64,
                        nanoseconds: self.nanoseconds.value as u32,
                        offset_seconds: o,
                    },
                ),
                None => r matches Err(e) && e@ == ErrorModel::ConversionError,
            },
            r matches Ok(o) ==> -86_400 < o.offset_seconds < 86_400,
    {
        let seconds = self.seconds.value;
        let nanoseconds = self.nanoseconds.value as u32;
        match offset_in_zone(self.tz_id.value.as_str(), seconds, nanoseconds) {
            Some(offset) => {
                Ok(OffsetDateTime { seconds: seconds - offset as i64, nanoseconds, offset_seconds: offset })
            },
            None => Err(Error::ConversionError),
        }
    }
}

} // verus!
