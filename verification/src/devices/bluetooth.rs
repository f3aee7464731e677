//! What is known of a device once its model is known.

use vstd::prelude::*;

verus! {

/// The capabilities that a model of a device has. A capability that is
/// missing is no fault: the device is used without it.
#[derive(Debug, Clone, Copy, PartialEq, Eq)]
pub struct Capabilities {
    pub alert: bool,
    pub battery: bool,
    pub heartrate: bool,
    pub steps: bool,
}

/// What a generic device has to do when it is asked to connect.
#[derive(Debug, Clone, Copy, PartialEq, Eq)]
pub struct ConnectPlan {
    /// Connect the transport.
    pub connect: bool,
    /// Look the characteristics up.
    pub discover: bool,
}

impl Capabilities {
    /// Every capability.
    pub fn all() -> (c: Capabilities)
        ensures
            c == (Capabilities { alert: true, battery: true, heartrate: true, steps: true }),
    {
        Capabilities { alert: true, battery: true, heartrate: true, steps: true }
    }

    /// No capability.
    pub fn none() -> (c: Capabilities)
        ensures
            c == (Capabilities { alert: false, battery: false, heartrate: false, steps: false }),
    {
        Capabilities { alert: false, battery: false, heartrate: false, steps: false }
    }
}

} // verus!
