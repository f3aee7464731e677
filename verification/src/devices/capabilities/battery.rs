//! The battery.

use vstd::prelude::*;
use vstd::std_specs::convert::TryFromSpecImpl;
use crate::devices::{datetime_as_bytes, datetime_from_bytes, spec_datetime_as_bytes, spec_datetime_from_bytes, DateTime};
use crate::error::Error;
use crate::wire::{spec_u16_le, spec_u16_to_le, u16_from_le, u16_to_le};

verus! {

/// What the battery is doing.
#[derive(Debug, Clone, Copy, PartialEq, Eq)]
pub enum BatteryStatus {
    Low,
    Charging,
    NotCharging,
    Full,
}

impl BatteryStatus {
    /// The tag that stands for the status.
    pub open spec fn spec_byte(self) -> u8 {
        match self {
            BatteryStatus::Low => 1u8,
            BatteryStatus::Charging => 2u8,
            BatteryStatus::NotCharging => 3u8,
            BatteryStatus::Full => 4u8,
        }
    }

    /// The status that a tag stands for, if it stands for one.
    pub open spec fn spec_from_byte(b: u8) -> Result<BatteryStatus, Error> {
        if b == 1 {
            Ok(BatteryStatus::Low)
        } else if b == 2 {
            Ok(BatteryStatus::Charging)
        } else if b == 3 {
            Ok(BatteryStatus::NotCharging)
        } else if b == 4 {
            Ok(BatteryStatus::Full)
        } else {
            Err(Error::Parse { expected: "1,2,3,4", position: 0, actual: b })
        }
    }

    /// The tag of the status.
    pub fn byte(self) -> (b: u8)
        ensures
            b == self.spec_byte(),
    {
        match self {
            BatteryStatus::Low => 1,
            BatteryStatus::Charging => 2,
            BatteryStatus::NotCharging => 3,
            BatteryStatus::Full => 4,
        }
    }
}

impl TryFrom<u8> for BatteryStatus {
    type Error = Error;

    fn try_from(b: u8) -> (r: Result<BatteryStatus, Error>) {
        match b {
            1 => Ok(BatteryStatus::Low),
            2 => Ok(BatteryStatus::Charging),
            3 => Ok(BatteryStatus::NotCharging),
            4 => Ok(BatteryStatus::Full),
            _ => Err(Error::Parse { expected: "1,2,3,4", position: 0, actual: b }),
        }
    }
}

impl TryFromSpecImpl<u8> for BatteryStatus {
    open spec fn obeys_try_from_spec() -> bool {
        true
    }

    open spec fn try_from_spec(b: u8) -> Result<BatteryStatus, Error> {
        BatteryStatus::spec_from_byte(b)
    }
}

/// What the band says of its battery.
#[derive(Debug, Clone, Copy, PartialEq, Eq)]
pub struct BatteryInfo {
    /// The charge in percent.
    pub level: u8,
    /// When the battery was last charged; nothing where the band sent no
    /// date that exists.
    pub datetime: Option<DateTime>,
    /// How often the battery was charged.
    pub charges: u16,
    /// Nothing where the band sent a tag that stands for no status.
    pub status: Option<BatteryStatus>,
}

/// The length of a battery record.
pub const BATTERY_INFO_LENGTH: usize = 10;

/// What is left of a decoded value when its error is dropped.
pub open spec fn spec_ok<T>(r: Result<T, Error>) -> Option<T> {
    match r {
        Ok(value) => Some(value),
        Err(_) => None,
    }
}

impl BatteryInfo {
    /// The battery info that ten bytes stand for: the level, a compact date
    /// and time, the number of charges, least significant byte first, and
    /// the tag of the status.
    pub open spec fn spec_from_bytes(b: Seq<u8>) -> BatteryInfo
        recommends
            b.len() == 10,
    {
        BatteryInfo {
            level: b[0],
            datetime: spec_ok(spec_datetime_from_bytes(b.subrange(1, 7))),
            charges: spec_u16_le(b[7], b[8]),
            status: spec_ok(BatteryStatus::spec_from_byte(b[9])),
        }
    }

    /// What decoding a battery record gives: the battery info of ten bytes,
    /// or a length error.
    pub open spec fn spec_try_from(b: Seq<u8>) -> Result<BatteryInfo, Error> {
        if b.len() == 10 {
            Ok(BatteryInfo::spec_from_bytes(b))
        } else {
            Err(Error::Length { expected: 10, actual: b.len() as usize })
        }
    }

    /// The record of the battery info. A date or a status that is missing
    /// is laid out as zeros, which stand for neither.
    pub open spec fn spec_to_bytes(&self) -> Seq<u8> {
        seq![self.level] + (match self.datetime {
            Some(dt) => spec_datetime_as_bytes(dt),
            None => seq![0u8, 0u8, 0u8, 0u8, 0u8, 0u8],
        }) + spec_u16_to_le(self.charges) + seq![
            match self.status {
                Some(status) => status.spec_byte(),
                None => 0u8,
            },
        ]
    }

    /// Lays the battery info out as the band does.
    pub fn to_bytes(&self) -> (b: [u8; 10])
        ensures
            b@ == self.spec_to_bytes(),
    {
        let dt: [u8; 6] = match &self.datetime {
            Some(dt) => datetime_as_bytes(dt),
            None => [0, 0, 0, 0, 0, 0],
        };
        let charges = u16_to_le(self.charges);
        let status: u8 = match self.status {
            Some(status) => status.byte(),
            None => 0,
        };
        let b: [u8; 10] = [
            self.level,
            dt[0],
            dt[1],
            dt[2],
            dt[3],
            dt[4],
            dt[5],
            charges[0],
            charges[1],
            status,
        ];
        assert(b@ =~= self.spec_to_bytes());
        b
    }

    /// Decodes one notification of the battery characteristic. A frame that
    /// is no battery record gives nothing: a stream drops it and goes on.
    pub fn from_notification(b: &[u8]) -> (r: Option<BatteryInfo>)
        ensures
            r == spec_ok(BatteryInfo::spec_try_from(b@)),
    {
        match BatteryInfo::try_from(b) {
            Ok(info) => Some(info),
            Err(_) => None,
        }
    }
}

impl<'a> TryFrom<&'a [u8]> for BatteryInfo {
    type Error = Error;

    fn try_from(b: &'a [u8]) -> (r: Result<BatteryInfo, Error>) {
        if b.len() == BATTERY_INFO_LENGTH {
            let datetime = match datetime_from_bytes(vstd::slice::slice_subrange(b, 1, 7)) {
                Ok(dt) => Some(dt),
                Err(_) => None,
            };
            let status = match BatteryStatus::try_from(b[9]) {
                Ok(status) => Some(status),
                Err(_) => None,
            };
            Ok(BatteryInfo { level: b[0], datetime, charges: u16_from_le(b[7], b[8]), status })
        } else {
            Err(Error::Length { expected: BATTERY_INFO_LENGTH, actual: b.len() })
        }
    }
}

impl<'a> TryFromSpecImpl<&'a [u8]> for BatteryInfo {
    open spec fn obeys_try_from_spec() -> bool {
        true
    }

    open spec fn try_from_spec(b: &'a [u8]) -> Result<BatteryInfo, Error> {
        BatteryInfo::spec_try_from(b@)
    }
}

} // verus!
