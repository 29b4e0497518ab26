use vstd::prelude::*;

use crate::trait_def::LightClone;

verus! {

/// `bytes::Bytes`: a shared byte buffer whose clones bump a reference count.
#[verifier::external_type_specification]
#[verifier::external_body]
pub struct ExBytes(bytes::Bytes);

/// `chrono::NaiveDate`, a `Copy` calendar date.
#[verifier::external_type_specification]
#[verifier::external_body]
pub struct ExNaiveDate(chrono::NaiveDate);

/// `chrono::NaiveTime`, a `Copy` time of day.
#[verifier::external_type_specification]
#[verifier::external_body]
pub struct ExNaiveTime(chrono::NaiveTime);

/// `chrono::NaiveDateTime`, a `Copy` date and time.
#[verifier::external_type_specification]
#[verifier::external_body]
pub struct ExNaiveDateTime(chrono::NaiveDateTime);

/// `chrono::Month`, a `Copy` month of the year.
#[verifier::external_type_specification]
#[verifier::external_body]
pub struct ExChronoMonth(chrono::Month);

/// `chrono::Weekday`, a `Copy` day of the week.
#[verifier::external_type_specification]
#[verifier::external_body]
pub struct ExChronoWeekday(chrono::Weekday);

/// `chrono::TimeDelta`, a `Copy` span of time.
#[verifier::external_type_specification]
#[verifier::external_body]
pub struct ExTimeDelta(chrono::TimeDelta);

/// `chrono::Utc`, the `Copy` UTC time zone.
#[verifier::external_type_specification]
#[verifier::external_body]
pub struct ExUtc(chrono::Utc);

/// `chrono::FixedOffset`, a `Copy` fixed time zone offset.
#[verifier::external_type_specification]
#[verifier::external_body]
pub struct ExFixedOffset(chrono::FixedOffset);

/// `rust_decimal::Decimal`, a `Copy` 128-bit decimal number.
#[verifier::external_type_specification]
#[verifier::external_body]
pub struct ExDecimal(rust_decimal::Decimal);

/// `smol_str::SmolStr`: a string kept inline when short and behind a reference count otherwise.
#[verifier::external_type_specification]
#[verifier::external_body]
pub struct ExSmolStr(smol_str::SmolStr);

/// `time::Date`, a `Copy` calendar date.
#[verifier::external_type_specification]
#[verifier::external_body]
pub struct ExTimeDate(time::Date);

/// `time::Time`, a `Copy` time of day.
#[verifier::external_type_specification]
#[verifier::external_body]
pub struct ExTimeTime(time::Time);

/// `time::PrimitiveDateTime`, a `Copy` date and time.
#[verifier::external_type_specification]
#[verifier::external_body]
pub struct ExPrimitiveDateTime(time::PrimitiveDateTime);

/// `time::OffsetDateTime`, a `Copy` date and time with offset.
#[verifier::external_type_specification]
#[verifier::external_body]
pub struct ExOffsetDateTime(time::OffsetDateTime);

/// `time::UtcOffset`, a `Copy` offset from UTC.
#[verifier::external_type_specification]
#[verifier::external_body]
pub struct ExUtcOffset(time::UtcOffset);

/// `time::Duration`, a `Copy` span of time.
#[verifier::external_type_specification]
#[verifier::external_body]
pub struct ExTimeDuration(time::Duration);

/// `time::Month`, a `Copy` month of the year.
#[verifier::external_type_specification]
#[verifier::external_body]
pub struct ExTimeMonth(time::Month);

/// `time::Weekday`, a `Copy` day of the week.
#[verifier::external_type_specification]
#[verifier::external_body]
pub struct ExTimeWeekday(time::Weekday);

/// `uuid::Uuid`, a `Copy` 128-bit identifier.
#[verifier::external_type_specification]
#[verifier::external_body]
pub struct ExUuid(uuid::Uuid);

impl LightClone for bytes::Bytes {}

impl LightClone for chrono::NaiveDate {
    /// A bitwise copy.
    fn light_clone(&self) -> (r: Self)
        ensures
            r == *self,
    {
        *self
    }
}

impl LightClone for chrono::NaiveTime {
    /// A bitwise copy.
    fn light_clone(&self) -> (r: Self)
        ensures
            r == *self,
    {
        *self
    }
}

impl LightClone for chrono::NaiveDateTime {
    /// A bitwise copy.
    fn light_clone(&self) -> (r: Self)
        ensures
            r == *self,
    {
        *self
    }
}

impl LightClone for chrono::Month {
    /// A bitwise copy.
    fn light_clone(&self) -> (r: Self)
        ensures
            r == *self,
    {
        *self
    }
}

impl LightClone for chrono::Weekday {
    /// A bitwise copy.
    fn light_clone(&self) -> (r: Self)
        ensures
            r == *self,
    {
        *self
    }
}

impl LightClone for chrono::TimeDelta {
    /// A bitwise copy.
    fn light_clone(&self) -> (r: Self)
        ensures
            r == *self,
    {
        *self
    }
}

impl LightClone for chrono::Utc {
    /// A bitwise copy.
    fn light_clone(&self) -> (r: Self)
        ensures
            r == *self,
    {
        *self
    }
}

impl LightClone for chrono::FixedOffset {
    /// A bitwise copy.
    fn light_clone(&self) -> (r: Self)
        ensures
            r == *self,
    {
        *self
    }
}

impl LightClone for rust_decimal::Decimal {
    /// A bitwise copy.
    fn light_clone(&self) -> (r: Self)
        ensures
            r == *self,
    {
        *self
    }
}

impl LightClone for smol_str::SmolStr {}

impl LightClone for time::Date {
    /// A bitwise copy.
    fn light_clone(&self) -> (r: Self)
        ensures
            r == *self,
    {
        *self
    }
}

impl LightClone for time::Time {
    /// A bitwise copy.
    fn light_clone(&self) -> (r: Self)
        ensures
            r == *self,
    {
        *self
    }
}

impl LightClone for time::PrimitiveDateTime {
    /// A bitwise copy.
    fn light_clone(&self) -> (r: Self)
        ensures
            r == *self,
    {
        *self
    }
}

impl LightClone for time::OffsetDateTime {
    /// A bitwise copy.
    fn light_clone(&self) -> (r: Self)
        ensures
            r == *self,
    {
        *self
    }
}

impl LightClone for time::UtcOffset {
    /// A bitwise copy.
    fn light_clone(&self) -> (r: Self)
        ensures
            r == *self,
    {
        *self
    }
}

impl LightClone for time::Duration {
    /// A bitwise copy.
    fn light_clone(&self) -> (r: Self)
        ensures
            r == *self,
    {
        *self
    }
}

impl LightClone for time::Month {
    /// A bitwise copy.
    fn light_clone(&self) -> (r: Self)
        ensures
            r == *self,
    {
        *self
    }
}

impl LightClone for time::Weekday {
    /// A bitwise copy.
    fn light_clone(&self) -> (r: Self)
        ensures
            r == *self,
    {
        *self
    }
}

impl LightClone for uuid::Uuid {
    /// A bitwise copy.
    fn light_clone(&self) -> (r: Self)
        ensures
            r == *self,
    {
        *self
    }
}

} // verus!
