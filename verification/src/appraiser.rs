//! Which devices this driver knows, by their address.

use vstd::prelude::*;
use crate::devices::bluetooth::Capabilities;
use crate::devices::miband::ADDRESS;

verus! {

/// A device that the driver knows how to talk to.
#[derive(Debug, Clone, Copy, PartialEq, Eq)]
pub enum Known {
    /// The band, model 1S.
    MiBandOneS,
}

/// The device at an address, if the driver knows one there.
pub open spec fn spec_appraise(address: Seq<u8>) -> Option<Known> {
    if address == ADDRESS@ {
        Some(Known::MiBandOneS)
    } else {
        None
    }
}

/// Looks an address up among the devices that the driver knows. An
/// address that is not among them is a device the driver does not support,
/// which is no error.
pub fn appraise(address: &[u8; 6]) -> (known: Option<Known>)
    ensures
        known == spec_appraise(address@),
{
    let mut i: usize = 0;
    while i < 6
        invariant
            0 <= i <= 6,
            forall|j: int| 0 <= j < i ==> address@[j] == ADDRESS@[j],
        decreases 6 - i,
    {
        if address[i] != ADDRESS[i] {
            assert(address@ != ADDRESS@);
            return None;
        }
        i = i + 1;
    }
    assert(address@ =~= ADDRESS@);
    Some(Known::MiBandOneS)
}

impl Known {
    /// What the device can do.
    pub fn capabilities(self) -> (c: Capabilities)
        ensures
            c == self.spec_capabilities(),
    {
        match self {
            Known::MiBandOneS => Capabilities::all(),
        }
    }

    /// What the device can do: the band, model 1S, has every capability.
    pub open spec fn spec_capabilities(self) -> Capabilities {
        match self {
            Known::MiBandOneS => Capabilities { alert: true, battery: true, heartrate: true, steps: true },
        }
    }
}

/// Whether a device that was discovered is the one to connect to: any
/// device where no address was asked for, else the one at that address.
pub fn wanted(filter: Option<[u8; 6]>, discovered: &[u8; 6]) -> (yes: bool)
    ensures
        yes == (match filter {
            None => true,
            Some(address) => address@ == discovered@,
        }),
{
    match filter {
        None => true,
        Some(address) => {
            let mut i: usize = 0;
            while i < 6
                invariant
                    0 <= i <= 6,
                    filter == Some(address),
                    forall|j: int| 0 <= j < i ==> address@[j] == discovered@[j],
                decreases 6 - i,
            {
                if address[i] != discovered[i] {
                    assert(address@ != discovered@);
                    return false;
                }
                i = i + 1;
            }
            assert(address@ =~= discovered@);
            true
        },
    }
}

} // verus!
