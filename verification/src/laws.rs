//! What holds of the records on the wire, whatever they hold.

use vstd::prelude::*;
use crate::devices::capabilities::battery::BatteryInfo;
use crate::devices::capabilities::steps::spec_steps_from_bytes;
use crate::devices::miband::{checksum_matches, DeviceInfo, LEParams, User};
use crate::devices::{spec_datetime_as_bytes, spec_datetime_from_bytes, DateTime};
use crate::error::Error;
use crate::wire::{
    lemma_u16_le_bytes_round_trip, lemma_u16_le_round_trip, lemma_u32_be_round_trip,
    lemma_u32_le_bytes_round_trip, spec_u32_le, spec_u32_to_le,
};

verus! {

/// The checksum that a user record carries is the one that a reader
/// computes over the nineteen bytes before it, xored with the last octet
/// of the address: whoever the user, whatever the flag, the device info
/// and the octet.
pub proof fn lemma_user_record_checksum(user: User, auth: bool, info: DeviceInfo, address_last: u8)
    ensures
        user.spec_record(auth, info, address_last).len() == 20,
        checksum_matches(user.spec_record(auth, info, address_last), address_last),
{
    let plain = user.spec_to_bytes().update(8, if auth { 1u8 } else { 0u8 }).update(
        9,
        info.feature,
    ).update(10, info.appearance);
    let record = user.spec_record(auth, info, address_last);
    assert(record.subrange(0, 19) =~= plain.subrange(0, 19));
}

/// A user record carries the flag, the feature and the appearance where
/// the band looks for them, and the user's own bytes everywhere else but
/// in the checksum.
pub proof fn lemma_user_record_fields(user: User, auth: bool, info: DeviceInfo, address_last: u8)
    ensures
        user.spec_record(auth, info, address_last)[8] == (if auth { 1u8 } else { 0u8 }),
        user.spec_record(auth, info, address_last)[9] == info.feature,
        user.spec_record(auth, info, address_last)[10] == info.appearance,
        forall|i: int|
            0 <= i < 19 && i != 8 && i != 9 && i != 10 ==> user.spec_record(auth, info, address_last)[i]
                == user.spec_to_bytes()[i],
{
}

/// A device info that is laid out and decoded again is the same.
pub proof fn lemma_device_info_round_trip(info: DeviceInfo)
    ensures
        DeviceInfo::spec_try_from(info.spec_to_bytes()) == Ok::<DeviceInfo, Error>(info),
{
    lemma_u32_be_round_trip(info.id);
    let decoded = DeviceInfo::spec_from_bytes(info.spec_to_bytes());
    assert(decoded.profile_version.0 =~= info.profile_version.0);
    assert(decoded.firmware_version.0 =~= info.firmware_version.0);
    assert(decoded.firmware_version_heart.0 =~= info.firmware_version_heart.0);
}

/// Connection parameters that are laid out and decoded again are the same.
pub proof fn lemma_le_params_round_trip(params: LEParams)
    ensures
        LEParams::spec_try_from(params.spec_to_le_bytes()) == Ok::<LEParams, Error>(params),
{
    lemma_u16_le_round_trip(params.min_interval);
    lemma_u16_le_round_trip(params.max_interval);
    lemma_u16_le_round_trip(params.latency);
    lemma_u16_le_round_trip(params.timeout);
    lemma_u16_le_round_trip(params.connection_interval);
    lemma_u16_le_round_trip(params.advertisement_interval);
}

/// A date and time that exists, in a year that the band can hold, is the
/// same after it was encoded and decoded again.
pub proof fn lemma_datetime_round_trip(dt: DateTime)
    requires
        dt.is_valid(),
        dt.fits_band(),
    ensures
        spec_datetime_from_bytes(spec_datetime_as_bytes(dt)) == Ok::<DateTime, Error>(dt),
{
}

/// What is decoded from the compact form exists, lies in a year that the
/// band can hold, and is encoded as the bytes it came from.
pub proof fn lemma_datetime_bytes_round_trip(b: Seq<u8>)
    requires
        spec_datetime_from_bytes(b) is Ok,
    ensures
        spec_datetime_from_bytes(b)->Ok_0.is_valid(),
        spec_datetime_from_bytes(b)->Ok_0.fits_band(),
        spec_datetime_as_bytes(spec_datetime_from_bytes(b)->Ok_0) == b,
{
    assert(spec_datetime_as_bytes(spec_datetime_from_bytes(b)->Ok_0) =~= b);
}

/// A battery info that is laid out and decoded again is the same, if the
/// date it holds, where it holds one, exists in a year that the band can
/// hold.
pub proof fn lemma_battery_info_round_trip(info: BatteryInfo)
    requires
        info.datetime matches Some(dt) ==> dt.is_valid() && dt.fits_band(),
    ensures
        BatteryInfo::spec_try_from(info.spec_to_bytes()) == Ok::<BatteryInfo, Error>(info),
{
    let b = info.spec_to_bytes();
    lemma_u16_le_round_trip(info.charges);
    match info.datetime {
        Some(dt) => {
            assert(b.subrange(1, 7) =~= spec_datetime_as_bytes(dt));
            lemma_datetime_round_trip(dt);
        },
        None => {
            assert(b.subrange(1, 7) =~= seq![0u8, 0u8, 0u8, 0u8, 0u8, 0u8]);
        },
    }
}

/// A step count that is laid out and decoded again is the same.
pub proof fn lemma_steps_round_trip(steps: u32)
    ensures
        spec_steps_from_bytes(spec_u32_to_le(steps)) == Ok::<u32, Error>(steps),
{
    crate::wire::lemma_u32_le_round_trip(steps);
}

/// Twelve bytes that are decoded as connection parameters and laid out
/// again are the same bytes: no two records stand for the same parameters.
pub proof fn lemma_le_params_bytes_round_trip(b: Seq<u8>)
    requires
        b.len() == 12,
    ensures
        LEParams::spec_from_bytes(b).spec_to_le_bytes() == b,
{
    lemma_u16_le_bytes_round_trip(b[0], b[1]);
    lemma_u16_le_bytes_round_trip(b[2], b[3]);
    lemma_u16_le_bytes_round_trip(b[4], b[5]);
    lemma_u16_le_bytes_round_trip(b[6], b[7]);
    lemma_u16_le_bytes_round_trip(b[8], b[9]);
    lemma_u16_le_bytes_round_trip(b[10], b[11]);
    assert(LEParams::spec_from_bytes(b).spec_to_le_bytes() =~= b);
}

/// Four bytes that are decoded as a step count and laid out again are the
/// same bytes.
pub proof fn lemma_steps_bytes_round_trip(b: Seq<u8>)
    requires
        b.len() == 4,
    ensures
        spec_steps_from_bytes(b) is Ok,
        spec_u32_to_le(spec_steps_from_bytes(b)->Ok_0) == b,
{
    lemma_u32_le_bytes_round_trip(b[0], b[1], b[2], b[3]);
    assert(seq![b[0], b[1], b[2], b[3]] =~= b);
}

/// A buffer of another length than the record's is refused by every
/// decoder with a length error that names both lengths.
pub proof fn lemma_length_guard(b: Seq<u8>)
    ensures
        b.len() != 20 ==> DeviceInfo::spec_try_from(b) == Err::<DeviceInfo, Error>(
            Error::Length { expected: 20, actual: b.len() as usize },
        ),
        b.len() != 10 ==> BatteryInfo::spec_try_from(b) == Err::<BatteryInfo, Error>(
            Error::Length { expected: 10, actual: b.len() as usize },
        ),
        b.len() != 12 ==> LEParams::spec_try_from(b) == Err::<LEParams, Error>(
            Error::Length { expected: 12, actual: b.len() as usize },
        ),
        b.len() != 6 ==> spec_datetime_from_bytes(b) == Err::<DateTime, Error>(
            Error::Length { expected: 6, actual: b.len() as usize },
        ),
        b.len() != 4 ==> spec_steps_from_bytes(b) == Err::<u32, Error>(
            Error::Length { expected: 4, actual: b.len() as usize },
        ),
{
}

/// A buffer of the record's length is never refused for its length: the
/// decoders of the device info, the battery info, the connection
/// parameters and the steps take any bytes of the right number.
pub proof fn lemma_right_length_decodes(b: Seq<u8>)
    ensures
        b.len() == 20 ==> DeviceInfo::spec_try_from(b) is Ok,
        b.len() == 10 ==> BatteryInfo::spec_try_from(b) is Ok,
        b.len() == 12 ==> LEParams::spec_try_from(b) is Ok,
        b.len() == 4 ==> spec_steps_from_bytes(b) == Ok::<u32, Error>(
            spec_u32_le(b[0], b[1], b[2], b[3]),
        ),
{
}

} // verus!
