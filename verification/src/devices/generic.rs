//! Devices that are known by one standard capability only.

use vstd::prelude::*;
use crate::devices::bluetooth::ConnectPlan;

verus! {

/// Marks a type that stands for one capability.
pub trait Capability {
}

/// Stands for the alert of a generic device.
#[derive(Debug, Clone, Copy, PartialEq, Eq)]
pub enum AlertDevice {
    Tag,
}

impl Capability for AlertDevice {
}

/// Stands for the heart-rate sensor of a generic device.
#[derive(Debug, Clone, Copy, PartialEq, Eq)]
pub enum HeartRateDevice {
    Tag,
}

impl Capability for HeartRateDevice {
}

/// What a generic device does when asked to connect: it connects unless
/// it is connected, and looks its characteristics up unless it knows some.
pub fn connect_plan(connected: bool, characteristics: usize) -> (plan: ConnectPlan)
    ensures
        plan.connect == !connected,
        plan.discover == (characteristics == 0),
{
    ConnectPlan { connect: !connected, discover: characteristics == 0 }
}

} // verus!
