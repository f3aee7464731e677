//! The heart-rate sensor.

use vstd::prelude::*;

verus! {

/// Marks a device that measures the heart rate.
pub trait HeartRateCapable {
}

/// Asks for one measurement.
pub const MANUAL: [u8; 3] = [0x15, 0x2, 0x1];

/// The continuous mode, switched off.
pub const CONTINUOUS: [u8; 3] = [0x15, 0x1, 0x0];

/// The measurement during sleep, switched off.
pub const SLEEP: [u8; 3] = [0x15, 0x0, 0x0];

/// What is written after the sleep mode was switched.
pub const SLEEP_COMMIT: [u8; 2] = [0x14, 0x0];

/// What is written to the control point to switch the continuous mode.
pub fn continuous_payload(enable: bool) -> (p: [u8; 3])
    ensures
        p@ == seq![0x15u8, 0x1u8, if enable { 1u8 } else { 0u8 }],
{
    let p: [u8; 3] = [0x15, 0x1, if enable { 1 } else { 0 }];
    assert(p@ =~= seq![0x15u8, 0x1u8, if enable { 1u8 } else { 0u8 }]);
    p
}

/// What is written to the control point to switch the measurement during
/// sleep.
pub fn sleep_payload(enable: bool) -> (p: [u8; 3])
    ensures
        p@ == seq![0x15u8, 0x0u8, if enable { 1u8 } else { 0u8 }],
{
    let p: [u8; 3] = [0x15, 0x0, if enable { 1 } else { 0 }];
    assert(p@ =~= seq![0x15u8, 0x0u8, if enable { 1u8 } else { 0u8 }]);
    p
}

/// The beats per minute in one notification of the measurement
/// characteristic: its second byte. A frame too short to hold one gives
/// nothing: a stream drops it and goes on.
pub fn heartrate_from_notification(b: &[u8]) -> (r: Option<u8>)
    ensures
        r == (if b@.len() >= 2 {
            Some(b@[1])
        } else {
            None
        }),
{
    if b.len() >= 2 {
        Some(b[1])
    } else {
        None
    }
}

} // verus!
