//! The band's own protocol: its records on the wire, the checksum of the
//! user record, the payloads of the control channel and the handshake.

use vstd::prelude::*;
use vstd::std_specs::convert::TryFromSpecImpl;
use crate::bio::{Bio, Sex};
use crate::devices::capabilities::alarm::AlarmSlot;
use crate::devices::miband::control::{ALARM, FACTORY_RESET, REBOOT, SET_STEPS, STEP_GOAL, WEAR_LOCATION};
use crate::devices::{datetime_as_bytes, spec_datetime_as_bytes, DateTime, NotSupportedErr, Version, WearLocation};
use crate::error::Error;
use crate::wire::{spec_u16_le, spec_u16_to_le, spec_u32_be, spec_u32_to_be, spec_u32_to_le};
use crate::wire::{u16_from_le, u16_to_le, u32_from_be, u32_to_be, u32_to_le};

pub mod control;
pub mod handshake;
pub mod notifications;
pub mod registry;

verus! {

/// The link-layer address of the band this driver was written for.
pub const ADDRESS: [u8; 6] = [0xC8, 0x0F, 0x10, 0x80, 0xD0, 0xAA];

/// A model of the band.
pub trait Model {
}

/// The model 1S, the one with a heart-rate sensor. The type is a tag: its
/// one value carries nothing.
#[derive(Debug, Clone, Copy, PartialEq, Eq)]
pub enum OneS {
    Tag,
}

impl Model for OneS {
}

/// The checksum of the bytes by the CRC-8 of Maxim and Dallas: polynomial
/// 0x31, reflected, no initial value, no final xor.
pub uninterp spec fn crc8_maxim_dow(data: Seq<u8>) -> u8;

/// Calls `crc::Crc::<u8>::checksum` for the algorithm
/// `crc::CRC_8_MAXIM_DOW`. The checksum depends on the bytes alone; the
/// contract gives it its name and claims no more.
#[verifier::external_body]
fn checksum(data: &[u8]) -> (sum: u8)
    ensures
        sum == crc8_maxim_dow(data@),
{
    crc::Crc::<u8>::new(&crc::CRC_8_MAXIM_DOW).checksum(data)
}

/// The user the band is bound to.
#[derive(Debug, Clone, PartialEq, Eq)]
pub struct User {
    pub id: u32,
    pub alias: String,
    pub bio: Bio,
}

/// The number of bytes of an alias that a user record holds.
pub const MAX_ALIAS_LENGTH: usize = 8;

/// The byte of the alias field at `k`: the alias in UTF-8, cut after eight
/// bytes and padded with zeros.
pub open spec fn alias_byte(alias: Seq<u8>, k: int) -> u8 {
    if 0 <= k < alias.len() && k < MAX_ALIAS_LENGTH {
        alias[k]
    } else {
        0
    }
}

impl Default for User {
    fn default() -> (user: User)
        ensures
            user.id == 141279967,
            user.alias@ == "Morty"@,
            user.bio == (Bio { sex: Sex::Male, age: 14, height: 162, weight: 54 }),
    {
        User { id: 141279967, alias: "Morty".to_owned(), bio: Bio::default() }
    }
}

impl User {
    /// The alias as the bytes of its UTF-8 form.
    pub open spec fn alias_bytes(&self) -> Seq<u8> {
        vstd::utf8::encode_utf8(self.alias@)
    }

    /// The user record before the session fills in its own bytes: the id,
    /// least significant byte first, the sex, age, height and weight, three
    /// bytes left at zero, the alias, and a zero where the checksum goes.
    pub open spec fn spec_to_bytes(&self) -> Seq<u8> {
        let id = spec_u32_to_le(self.id);
        let alias = self.alias_bytes();
        seq![
            id[0],
            id[1],
            id[2],
            id[3],
            self.bio.sex.byte(),
            self.bio.age,
            self.bio.height,
            self.bio.weight,
            0u8,
            0u8,
            0u8,
            alias_byte(alias, 0),
            alias_byte(alias, 1),
            alias_byte(alias, 2),
            alias_byte(alias, 3),
            alias_byte(alias, 4),
            alias_byte(alias, 5),
            alias_byte(alias, 6),
            alias_byte(alias, 7),
            0u8,
        ]
    }

    /// The user record that the band is sent: the plain record with the
    /// authentication flag at 8, the device's feature and appearance at 9
    /// and 10, and at 19 the checksum of the first nineteen bytes xored
    /// with the last octet of the device's address.
    pub open spec fn spec_record(&self, auth: bool, info: DeviceInfo, address_last: u8) -> Seq<u8> {
        let plain = self.spec_to_bytes().update(8, if auth { 1u8 } else { 0u8 }).update(
            9,
            info.feature,
        ).update(10, info.appearance);
        plain.update(19, crc8_maxim_dow(plain.subrange(0, 19)) ^ address_last)
    }

    /// Lays the user out as the first part of a user record.
    pub fn to_bytes(&self) -> (b: [u8; 20])
        ensures
            b@ == self.spec_to_bytes(),
    {
        let id = u32_to_le(self.id);
        let alias = self.alias.as_str().as_bytes();
        let mut b: [u8; 20] = [0u8; 20];
        b[0] = id[0];
        b[1] = id[1];
        b[2] = id[2];
        b[3] = id[3];
        b[4] = u8::from(self.bio.sex);
        b[5] = self.bio.age;
        b[6] = self.bio.height;
        b[7] = self.bio.weight;
        let mut k: usize = 0;
        while k < MAX_ALIAS_LENGTH && k < alias.len()
            invariant
                0 <= k <= MAX_ALIAS_LENGTH,
                alias@ == self.alias_bytes(),
                forall|i: int| 0 <= i < 11 ==> b@[i] == self.spec_to_bytes()[i],
                forall|i: int| 11 <= i < 11 + k ==> b@[i] == self.spec_to_bytes()[i],
                forall|i: int| 11 + k <= i < 20 ==> b@[i] == 0,
            decreases MAX_ALIAS_LENGTH - k,
        {
            b[11 + k] = alias[k];
            k = k + 1;
        }
        assert(b@ =~= self.spec_to_bytes());
        b
    }

    /// Builds the user record to send in a handshake. `auth` is false in
    /// the first attempt and true in each one after a failure.
    pub fn record(&self, auth: bool, info: &DeviceInfo, address_last: u8) -> (b: [u8; 20])
        ensures
            b@ == self.spec_record(auth, *info, address_last),
            checksum_matches(b@, address_last),
    {
        let mut b = self.to_bytes();
        b[8] = if auth { 1 } else { 0 };
        b[9] = info.feature;
        b[10] = info.appearance;
        let ghost plain = b@;
        let sum = checksum(vstd::slice::slice_subrange(b.as_slice(), 0, 19));
        b[19] = sum ^ address_last;
        assert(b@.subrange(0, 19) =~= plain.subrange(0, 19));
        b
    }
}

/// Whether the last byte of a user record is the checksum of the nineteen
/// before it, xored with the last octet of the device's address.
pub open spec fn checksum_matches(record: Seq<u8>, address_last: u8) -> bool {
    record.len() == 20 && record[19] == crc8_maxim_dow(record.subrange(0, 19)) ^ address_last
}

/// Recomputes the checksum of a user record and holds it against the one
/// embedded in it.
pub fn verify_checksum(record: &[u8], address_last: u8) -> (ok: bool)
    ensures
        ok == checksum_matches(record@, address_last),
{
    if record.len() != 20 {
        return false;
    }
    let sum = checksum(vstd::slice::slice_subrange(record, 0, 19));
    record[19] == sum ^ address_last
}

/// What the band says of itself.
#[derive(Debug, Clone, Copy, PartialEq, Eq)]
pub struct DeviceInfo {
    pub id: u32,
    pub feature: u8,
    pub appearance: u8,
    pub hardware_version: u8,
    pub profile_version: Version,
    pub firmware_version: Version,
    pub firmware_version_heart: Version,
}

/// The length of a device info record.
pub const DEVICE_INFO_LENGTH: usize = 20;

impl DeviceInfo {
    /// The device info that twenty bytes stand for: the id, most
    /// significant byte first, the feature, appearance and hardware
    /// version, a byte that is passed over, and three versions.
    pub open spec fn spec_from_bytes(b: Seq<u8>) -> DeviceInfo
        recommends
            b.len() == 20,
    {
        DeviceInfo {
            id: spec_u32_be(b[0], b[1], b[2], b[3]),
            feature: b[4],
            appearance: b[5],
            hardware_version: b[6],
            profile_version: Version([b[8], b[9], b[10], b[11]]),
            firmware_version: Version([b[12], b[13], b[14], b[15]]),
            firmware_version_heart: Version([b[16], b[17], b[18], b[19]]),
        }
    }

    /// What decoding a device info record gives: the device info of twenty
    /// bytes, or a length error.
    pub open spec fn spec_try_from(b: Seq<u8>) -> Result<DeviceInfo, Error> {
        if b.len() == 20 {
            Ok(DeviceInfo::spec_from_bytes(b))
        } else {
            Err(Error::Length { expected: 20, actual: b.len() as usize })
        }
    }

    /// The record of the device info, with a zero for the byte that a
    /// reader passes over.
    pub open spec fn spec_to_bytes(&self) -> Seq<u8> {
        let id = spec_u32_to_be(self.id);
        seq![
            id[0],
            id[1],
            id[2],
            id[3],
            self.feature,
            self.appearance,
            self.hardware_version,
            0u8,
            self.profile_version.0[0],
            self.profile_version.0[1],
            self.profile_version.0[2],
            self.profile_version.0[3],
            self.firmware_version.0[0],
            self.firmware_version.0[1],
            self.firmware_version.0[2],
            self.firmware_version.0[3],
            self.firmware_version_heart.0[0],
            self.firmware_version_heart.0[1],
            self.firmware_version_heart.0[2],
            self.firmware_version_heart.0[3],
        ]
    }

    /// Lays the device info out as the band does.
    pub fn to_bytes(&self) -> (b: [u8; 20])
        ensures
            b@ == self.spec_to_bytes(),
    {
        let id = u32_to_be(self.id);
        let b: [u8; 20] = [
            id[0],
            id[1],
            id[2],
            id[3],
            self.feature,
            self.appearance,
            self.hardware_version,
            0,
            self.profile_version.0[0],
            self.profile_version.0[1],
            self.profile_version.0[2],
            self.profile_version.0[3],
            self.firmware_version.0[0],
            self.firmware_version.0[1],
            self.firmware_version.0[2],
            self.firmware_version.0[3],
            self.firmware_version_heart.0[0],
            self.firmware_version_heart.0[1],
            self.firmware_version_heart.0[2],
            self.firmware_version_heart.0[3],
        ];
        assert(b@ =~= self.spec_to_bytes());
        b
    }
}

impl<'a> TryFrom<&'a [u8]> for DeviceInfo {
    type Error = Error;

    fn try_from(b: &'a [u8]) -> (r: Result<DeviceInfo, Error>) {
        if b.len() == DEVICE_INFO_LENGTH {
            Ok(
                DeviceInfo {
                    id: u32_from_be(b[0], b[1], b[2], b[3]),
                    feature: b[4],
                    appearance: b[5],
                    hardware_version: b[6],
                    profile_version: Version([b[8], b[9], b[10], b[11]]),
                    firmware_version: Version([b[12], b[13], b[14], b[15]]),
                    firmware_version_heart: Version([b[16], b[17], b[18], b[19]]),
                },
            )
        } else {
            Err(Error::Length { expected: DEVICE_INFO_LENGTH, actual: b.len() })
        }
    }
}

impl<'a> TryFromSpecImpl<&'a [u8]> for DeviceInfo {
    open spec fn obeys_try_from_spec() -> bool {
        true
    }

    open spec fn try_from_spec(b: &'a [u8]) -> Result<DeviceInfo, Error> {
        DeviceInfo::spec_try_from(b@)
    }
}

/// The parameters of the connection, in the units of the link layer.
#[derive(Debug, Clone, Copy, PartialEq, Eq)]
pub struct LEParams {
    pub min_interval: u16,
    pub max_interval: u16,
    pub latency: u16,
    pub timeout: u16,
    pub connection_interval: u16,
    pub advertisement_interval: u16,
}

/// The length of a record of connection parameters.
pub const LE_PARAMS_LENGTH: usize = 12;

impl Default for LEParams {
    fn default() -> (p: LEParams)
        ensures
            p == (LEParams {
                min_interval: 460,
                max_interval: 500,
                latency: 0,
                timeout: 500,
                connection_interval: 0,
                advertisement_interval: 0,
            }),
    {
        LEParams {
            min_interval: 460,
            max_interval: 500,
            latency: 0,
            timeout: 500,
            connection_interval: 0,
            advertisement_interval: 0,
        }
    }
}

impl LEParams {
    /// The parameters that twelve bytes stand for: six numbers of 16 bits,
    /// each least significant byte first.
    pub open spec fn spec_from_bytes(b: Seq<u8>) -> LEParams
        recommends
            b.len() == 12,
    {
        LEParams {
            min_interval: spec_u16_le(b[0], b[1]),
            max_interval: spec_u16_le(b[2], b[3]),
            latency: spec_u16_le(b[4], b[5]),
            timeout: spec_u16_le(b[6], b[7]),
            connection_interval: spec_u16_le(b[8], b[9]),
            advertisement_interval: spec_u16_le(b[10], b[11]),
        }
    }

    /// What decoding a record of parameters gives: the parameters of twelve
    /// bytes, or a length error.
    pub open spec fn spec_try_from(b: Seq<u8>) -> Result<LEParams, Error> {
        if b.len() == 12 {
            Ok(LEParams::spec_from_bytes(b))
        } else {
            Err(Error::Length { expected: 12, actual: b.len() as usize })
        }
    }

    /// The record of the parameters.
    pub open spec fn spec_to_le_bytes(&self) -> Seq<u8> {
        spec_u16_to_le(self.min_interval) + spec_u16_to_le(self.max_interval) + spec_u16_to_le(
            self.latency,
        ) + spec_u16_to_le(self.timeout) + spec_u16_to_le(self.connection_interval)
            + spec_u16_to_le(self.advertisement_interval)
    }

    /// Lays the parameters out field by field.
    pub fn to_le_bytes(&self) -> (b: [u8; 12])
        ensures
            b@ == self.spec_to_le_bytes(),
    {
        let f0 = u16_to_le(self.min_interval);
        let f1 = u16_to_le(self.max_interval);
        let f2 = u16_to_le(self.latency);
        let f3 = u16_to_le(self.timeout);
        let f4 = u16_to_le(self.connection_interval);
        let f5 = u16_to_le(self.advertisement_interval);
        let b: [u8; 12] = [
            f0[0],
            f0[1],
            f1[0],
            f1[1],
            f2[0],
            f2[1],
            f3[0],
            f3[1],
            f4[0],
            f4[1],
            f5[0],
            f5[1],
        ];
        assert(b@ =~= self.spec_to_le_bytes());
        b
    }

    /// The parameters that the session asks for once it is connected: the
    /// defaults with both ends of the connection interval at 36.
    pub fn low_latency() -> (p: LEParams)
        ensures
            p == (LEParams {
                min_interval: 36,
                max_interval: 36,
                latency: 0,
                timeout: 500,
                connection_interval: 0,
                advertisement_interval: 0,
            }),
    {
        let d = LEParams::default();
        LEParams {
            min_interval: 36,
            max_interval: 36,
            latency: d.latency,
            timeout: d.timeout,
            connection_interval: d.connection_interval,
            advertisement_interval: d.advertisement_interval,
        }
    }
}

impl<'a> TryFrom<&'a [u8]> for LEParams {
    type Error = Error;

    fn try_from(b: &'a [u8]) -> (r: Result<LEParams, Error>) {
        if b.len() == LE_PARAMS_LENGTH {
            Ok(
                LEParams {
                    min_interval: u16_from_le(b[0], b[1]),
                    max_interval: u16_from_le(b[2], b[3]),
                    latency: u16_from_le(b[4], b[5]),
                    timeout: u16_from_le(b[6], b[7]),
                    connection_interval: u16_from_le(b[8], b[9]),
                    advertisement_interval: u16_from_le(b[10], b[11]),
                },
            )
        } else {
            Err(Error::Length { expected: LE_PARAMS_LENGTH, actual: b.len() })
        }
    }
}

impl<'a> TryFromSpecImpl<&'a [u8]> for LEParams {
    open spec fn obeys_try_from_spec() -> bool {
        true
    }

    open spec fn try_from_spec(b: &'a [u8]) -> Result<LEParams, Error> {
        LEParams::spec_try_from(b@)
    }
}

/// What is written to the control characteristic for a command with
/// arguments: the opcode, then the arguments.
pub fn control_payload<const N: usize>(command: control::Command, data: [u8; N]) -> (payload: Vec<u8>)
    ensures
        payload@ == seq![command] + data@,
{
    let mut payload: Vec<u8> = Vec::new();
    payload.push(command);
    for i in 0..N
        invariant
            payload@ == seq![command] + data@.subrange(0, i as int),
    {
        payload.push(data[i]);
        assert(data@.subrange(0, i + 1) =~= data@.subrange(0, i as int).push(data@[i as int]));
    }
    assert(data@.subrange(0, N as int) =~= data@);
    payload
}

/// What is written to the control characteristic for a command without
/// arguments: the opcode alone.
pub fn control(command: control::Command) -> (payload: Vec<u8>)
    ensures
        payload@ == seq![command],
{
    let mut payload: Vec<u8> = Vec::new();
    payload.push(command);
    payload
}

/// The command that resets the band to its factory settings.
pub fn factory_reset() -> (payload: Vec<u8>)
    ensures
        payload@ == seq![FACTORY_RESET],
{
    control(FACTORY_RESET)
}

/// The command that restarts the band.
pub fn reboot() -> (payload: Vec<u8>)
    ensures
        payload@ == seq![REBOOT],
{
    control(REBOOT)
}

/// The byte that stands for a place the band can be worn at; the band
/// knows no pocket.
pub open spec fn spec_wear_location_byte(location: WearLocation) -> Option<u8> {
    match location {
        WearLocation::Left => Some(0u8),
        WearLocation::Right => Some(1u8),
        WearLocation::Neck => Some(2u8),
        WearLocation::Pocket => None,
    }
}

/// The command that tells the band where it is worn, for a place that the
/// band knows.
pub fn set_wear_location(location: WearLocation) -> (r: Result<Vec<u8>, NotSupportedErr>)
    ensures
        match spec_wear_location_byte(location) {
            Some(byte) => r is Ok && r->Ok_0@ == seq![WEAR_LOCATION, byte],
            None => r is Err,
        },
{
    let byte: u8 = match location {
        WearLocation::Left => 0,
        WearLocation::Right => 1,
        WearLocation::Neck => 2,
        WearLocation::Pocket => {
            return Err(NotSupportedErr);
        },
    };
    let payload = control_payload(WEAR_LOCATION, [byte]);
    assert(payload@ =~= seq![WEAR_LOCATION, byte]);
    Ok(payload)
}

/// The command that sets the number of steps counted so far.
pub fn set_steps(steps: u32) -> (payload: Vec<u8>)
    ensures
        payload@ == seq![SET_STEPS] + spec_u32_to_le(steps),
{
    control_payload(SET_STEPS, u32_to_le(steps))
}

/// The command that sets an alarm.
pub fn set_alarm(slot: &AlarmSlot) -> (payload: Vec<u8>)
    ensures
        payload@ == seq![ALARM] + slot.spec_to_bytes(),
{
    control_payload(ALARM, slot.to_bytes())
}

/// The command that sets the number of steps to reach in a day: the
/// opcode, a zero, and the number, least significant byte first.
pub fn set_step_goal(steps: u16) -> (payload: Vec<u8>)
    ensures
        payload@ == seq![STEP_GOAL, 0u8] + spec_u16_to_le(steps),
{
    let goal = u16_to_le(steps);
    let payload = control_payload(STEP_GOAL, [0, goal[0], goal[1]]);
    assert(payload@ =~= seq![STEP_GOAL, 0u8] + spec_u16_to_le(steps));
    payload
}

/// What is written to the date and time characteristic: the compact date
/// and time, then six bytes of 0xFF.
pub fn set_datetime(dt: &DateTime) -> (payload: [u8; 12])
    ensures
        payload@ == spec_datetime_as_bytes(*dt) + seq![0xFFu8, 0xFFu8, 0xFFu8, 0xFFu8, 0xFFu8, 0xFFu8],
{
    let at = datetime_as_bytes(dt);
    let payload: [u8; 12] = [
        at[0],
        at[1],
        at[2],
        at[3],
        at[4],
        at[5],
        0xFF,
        0xFF,
        0xFF,
        0xFF,
        0xFF,
        0xFF,
    ];
    assert(payload@ =~= spec_datetime_as_bytes(*dt) + seq![
        0xFFu8,
        0xFFu8,
        0xFFu8,
        0xFFu8,
        0xFFu8,
        0xFFu8,
    ]);
    payload
}

/// The text that bytes stand for when every sequence that is no UTF-8 is
/// replaced by U+FFFD.
pub uninterp spec fn utf8_lossy(bytes: Seq<u8>) -> Seq<char>;

/// Calls `String::from_utf8_lossy`. The text depends on the bytes alone
/// and gets its name here; of bytes that are UTF-8 the contract says, as
/// the documentation does, that they are decoded unchanged.
#[verifier::external_body]
fn from_utf8_lossy(bytes: &[u8]) -> (text: String)
    ensures
        text@ == utf8_lossy(bytes@),
        vstd::utf8::valid_utf8(bytes@) ==> text@ == vstd::utf8::decode_utf8(bytes@),
{
    String::from_utf8_lossy(bytes).into_owned()
}

/// The number of bytes that stand before the name in what the device name
/// characteristic holds.
pub const DEVICE_NAME_PREFIX: usize = 3;

/// The name in what the device name characteristic holds: the text after
/// the prefix, read leniently. What is too short to hold the prefix is a
/// length error.
pub fn device_name(payload: &[u8]) -> (r: Result<String, Error>)
    ensures
        payload@.len() < 3 ==> r == Err::<String, Error>(
            Error::Length { expected: 3, actual: payload@.len() as usize },
        ),
        payload@.len() >= 3 ==> r is Ok && r->Ok_0@ == utf8_lossy(
            payload@.subrange(3, payload@.len() as int),
        ),
        payload@.len() >= 3 && vstd::utf8::valid_utf8(payload@.subrange(3, payload@.len() as int))
            ==> r is Ok && r->Ok_0@ == vstd::utf8::decode_utf8(
            payload@.subrange(3, payload@.len() as int),
        ),
{
    if payload.len() < DEVICE_NAME_PREFIX {
        return Err(Error::Length { expected: DEVICE_NAME_PREFIX, actual: payload.len() });
    }
    Ok(from_utf8_lossy(vstd::slice::slice_subrange(payload, DEVICE_NAME_PREFIX, payload.len())))
}

} // verus!
