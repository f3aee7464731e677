//! The opcodes of the control channel.

use vstd::prelude::*;

verus! {

/// An opcode.
pub type Command = u8;

pub const ALARM: Command = 0x4;

pub const STEP_GOAL: Command = 0x5;

pub const COLLECT_DATA: Command = 0x6;

pub const FACTORY_RESET: Command = 0x9;

pub const SYNC: Command = 0xB;

pub const REBOOT: Command = 0xC;

pub const WEAR_LOCATION: Command = 0xF;

pub const SET_STEPS: Command = 0x14;

} // verus!
