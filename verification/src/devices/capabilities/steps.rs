//! The step counter.

use vstd::prelude::*;
use crate::error::Error;
use crate::wire::{spec_u32_le, u32_from_le};

verus! {

/// Marks a device that counts steps.
pub trait StepsCapable {
}

/// The length of a step count on the wire.
pub const STEPS_LENGTH: usize = 4;

/// What decoding a step count gives: the number in four bytes, least
/// significant first, or a length error.
pub open spec fn spec_steps_from_bytes(b: Seq<u8>) -> Result<u32, Error> {
    if b.len() == 4 {
        Ok(spec_u32_le(b[0], b[1], b[2], b[3]))
    } else {
        Err(Error::Length { expected: 4, actual: b.len() as usize })
    }
}

/// Decodes what the steps characteristic holds.
pub fn steps_from_bytes(b: &[u8]) -> (r: Result<u32, Error>)
    ensures
        r == spec_steps_from_bytes(b@),
{
    if b.len() == STEPS_LENGTH {
        Ok(u32_from_le(b[0], b[1], b[2], b[3]))
    } else {
        Err(Error::Length { expected: STEPS_LENGTH, actual: b.len() })
    }
}

/// Decodes one notification of the steps characteristic. A frame that is
/// no step count gives nothing: a stream drops it and goes on.
pub fn steps_from_notification(b: &[u8]) -> (r: Option<u32>)
    ensures
        r == (match spec_steps_from_bytes(b@) {
            Ok(steps) => Some(steps),
            Err(_) => None,
        }),
{
    match steps_from_bytes(b) {
        Ok(steps) => Some(steps),
        Err(_) => None,
    }
}

} // verus!
