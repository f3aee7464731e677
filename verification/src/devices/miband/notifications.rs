//! The one-byte notifications that the band sends on its general channel.

use vstd::prelude::*;

verus! {

pub const ALARM: u8 = 0x23;

pub const LE_PARAMS_SUCCESS: u8 = 0x8;

/// The band waits for the wearer to confirm on the band itself.
pub const AUTH_AWAITING: u8 = 0x13;

/// The wearer confirmed.
pub const AUTH_CONFIRMED: u8 = 0xA;

/// The band refused the user record.
pub const AUTH_FAILED: u8 = 0x6;

/// The band knew the user already.
pub const AUTH_SUCCESS: u8 = 0x5;

/// The wearer did not confirm in time.
pub const AUTH_TIMEOUT: u8 = 0x9;

} // verus!
