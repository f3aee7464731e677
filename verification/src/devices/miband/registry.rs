//! The characteristics of the band, by their UUIDs, and which of them a
//! session must have found before it goes on.

use vstd::prelude::*;
use crate::devices::bluetooth::Capabilities;

verus! {

pub const DEVICE_INFO: u128 = 0x0000ff01_0000_1000_8000_00805f9b34fb;

pub const DEVICE_NAME: u128 = 0x0000ff02_0000_1000_8000_00805f9b34fb;

pub const NOTIFICATIONS: u128 = 0x0000ff03_0000_1000_8000_00805f9b34fb;

pub const USER_INFO: u128 = 0x0000ff04_0000_1000_8000_00805f9b34fb;

pub const CONTROL: u128 = 0x0000ff05_0000_1000_8000_00805f9b34fb;

pub const STEPS: u128 = 0x0000ff06_0000_1000_8000_00805f9b34fb;

pub const ACTIVITY: u128 = 0x0000ff07_0000_1000_8000_00805f9b34fb;

pub const LE_PARAMS: u128 = 0x0000ff09_0000_1000_8000_00805f9b34fb;

pub const DATE_TIME: u128 = 0x0000ff0a_0000_1000_8000_00805f9b34fb;

pub const BATTERY_INFO: u128 = 0x0000ff0c_0000_1000_8000_00805f9b34fb;

pub const ALERT_LEVEL: u128 = 0x00002a06_0000_1000_8000_00805f9b34fb;

pub const HEART_RATE_MEASUREMENT: u128 = 0x00002a37_0000_1000_8000_00805f9b34fb;

pub const HEART_RATE_CONTROL_POINT: u128 = 0x00002a39_0000_1000_8000_00805f9b34fb;

/// The characteristics that a session with a device of capabilities `c`
/// needs: those of the handshake and of the control channel, and those of
/// each capability that the device has.
pub open spec fn spec_required(c: Capabilities) -> Seq<u128> {
    seq![DEVICE_INFO, USER_INFO, NOTIFICATIONS, CONTROL, DATE_TIME, LE_PARAMS] + (if c.steps {
        seq![STEPS]
    } else {
        seq![]
    }) + (if c.battery {
        seq![BATTERY_INFO]
    } else {
        seq![]
    }) + (if c.alert {
        seq![ALERT_LEVEL]
    } else {
        seq![]
    }) + (if c.heartrate {
        seq![HEART_RATE_MEASUREMENT, HEART_RATE_CONTROL_POINT]
    } else {
        seq![]
    })
}

/// Lists the characteristics that a session needs.
pub fn required(c: &Capabilities) -> (uuids: Vec<u128>)
    ensures
        uuids@ == spec_required(*c),
{
    let mut uuids: Vec<u128> = Vec::new();
    uuids.push(DEVICE_INFO);
    uuids.push(USER_INFO);
    uuids.push(NOTIFICATIONS);
    uuids.push(CONTROL);
    uuids.push(DATE_TIME);
    uuids.push(LE_PARAMS);
    if c.steps {
        uuids.push(STEPS);
    }
    if c.battery {
        uuids.push(BATTERY_INFO);
    }
    if c.alert {
        uuids.push(ALERT_LEVEL);
    }
    if c.heartrate {
        uuids.push(HEART_RATE_MEASUREMENT);
        uuids.push(HEART_RATE_CONTROL_POINT);
    }
    assert(uuids@ =~= spec_required(*c));
    uuids
}

/// The first of `needed`, from `from` on, that is not among `found`.
pub open spec fn spec_missing_from(needed: Seq<u128>, found: Seq<u128>, from: int) -> Option<u128>
    decreases needed.len() - from,
{
    if from < 0 || from >= needed.len() {
        None
    } else if !found.contains(needed[from]) {
        Some(needed[from])
    } else {
        spec_missing_from(needed, found, from + 1)
    }
}

/// The first of `needed` that is not among `found`.
pub open spec fn spec_missing(needed: Seq<u128>, found: Seq<u128>) -> Option<u128> {
    spec_missing_from(needed, found, 0)
}

/// Nothing is missing exactly if everything needed was found, and what is
/// reported missing is needed and was not found.
pub proof fn lemma_missing(needed: Seq<u128>, found: Seq<u128>, from: int)
    requires
        0 <= from <= needed.len(),
    ensures
        spec_missing_from(needed, found, from) is None <==> forall|i: int|
            from <= i < needed.len() ==> found.contains(#[trigger] needed[i]),
        spec_missing_from(needed, found, from) matches Some(uuid) ==> needed.contains(uuid)
            && !found.contains(uuid),
    decreases needed.len() - from,
{
    if from < needed.len() {
        lemma_missing(needed, found, from + 1);
    }
}

/// Whether `uuid` is among `found`.
pub fn is_among(found: &[u128], uuid: u128) -> (yes: bool)
    ensures
        yes == found@.contains(uuid),
{
    let mut i: usize = 0;
    while i < found.len()
        invariant
            0 <= i <= found@.len(),
            forall|j: int| 0 <= j < i ==> found@[j] != uuid,
        decreases found@.len() - i,
    {
        if found[i] == uuid {
            return true;
        }
        i = i + 1;
    }
    false
}

/// Looks for a characteristic that is needed and was not found.
pub fn missing(needed: &[u128], found: &[u128]) -> (uuid: Option<u128>)
    ensures
        uuid == spec_missing(needed@, found@),
{
    let mut i: usize = 0;
    while i < needed.len()
        invariant
            0 <= i <= needed@.len(),
            spec_missing(needed@, found@) == spec_missing_from(needed@, found@, i as int),
        decreases needed@.len() - i,
    {
        if !is_among(found, needed[i]) {
            return Some(needed[i]);
        }
        i = i + 1;
    }
    None
}

} // verus!
