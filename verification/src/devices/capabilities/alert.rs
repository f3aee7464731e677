//! The vibration alert.

use vstd::prelude::*;
use vstd::std_specs::convert::TryFromSpecImpl;
use crate::error::Error;

verus! {

/// Marks a device that can alert its wearer.
pub trait AlertCapable {
}

/// How strongly the band vibrates.
#[derive(Debug, Clone, Copy, PartialEq, Eq)]
pub enum AlertLevel {
    Mild,
    High,
}

impl AlertLevel {
    /// The byte that stands for the level, on the wire and in a command.
    pub open spec fn spec_byte(self) -> u8 {
        match self {
            AlertLevel::Mild => 1u8,
            AlertLevel::High => 2u8,
        }
    }

    /// The level that a byte stands for, if it stands for one.
    pub open spec fn spec_from_byte(value: u8) -> Result<AlertLevel, Error> {
        if value == 1 {
            Ok(AlertLevel::Mild)
        } else if value == 2 {
            Ok(AlertLevel::High)
        } else {
            Err(Error::Parse { expected: "1,2", position: 0, actual: value })
        }
    }

    /// What is written to the alert-level characteristic to raise an alert.
    pub fn payload(self) -> (p: [u8; 1])
        ensures
            p@ == seq![self.spec_byte()],
    {
        let p: [u8; 1] = match self {
            AlertLevel::Mild => [1],
            AlertLevel::High => [2],
        };
        assert(p@ =~= seq![self.spec_byte()]);
        p
    }
}

impl TryFrom<u8> for AlertLevel {
    type Error = Error;

    fn try_from(value: u8) -> (r: Result<AlertLevel, Error>) {
        match value {
            1 => Ok(AlertLevel::Mild),
            2 => Ok(AlertLevel::High),
            _ => Err(Error::Parse { expected: "1,2", position: 0, actual: value }),
        }
    }
}

impl TryFromSpecImpl<u8> for AlertLevel {
    open spec fn obeys_try_from_spec() -> bool {
        true
    }

    open spec fn try_from_spec(value: u8) -> Result<AlertLevel, Error> {
        AlertLevel::spec_from_byte(value)
    }
}

/// A level read back from its byte is the same level.
pub proof fn lemma_alert_level_round_trip(level: AlertLevel)
    ensures
        AlertLevel::spec_from_byte(level.spec_byte()) == Ok::<AlertLevel, Error>(level),
{
}

} // verus!
