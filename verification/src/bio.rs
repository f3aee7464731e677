//! The wearer's particulars, as the band stores them.

use vstd::prelude::*;
use vstd::std_specs::convert::{FromSpec, FromSpecImpl, TryFromSpec, TryFromSpecImpl};
use crate::error::Error;

verus! {

/// The sex of the wearer, as the band asks for it.
#[derive(Debug, Clone, Copy, PartialEq, Eq)]
pub enum Sex {
    Male,
    Female,
}

/// What the band wants to know of the wearer's body.
#[derive(Debug, Clone, Copy, PartialEq, Eq)]
pub struct Bio {
    pub sex: Sex,
    pub age: u8,
    /// In centimetres.
    pub height: u8,
    /// In kilograms.
    pub weight: u8,
}

impl Default for Bio {
    fn default() -> (bio: Bio)
        ensures
            bio == (Bio { sex: Sex::Male, age: 14, height: 162, weight: 54 }),
    {
        Bio { sex: Sex::Male, age: 14, height: 162, weight: 54 }
    }
}

impl Sex {
    /// The byte that stands for the sex in a user record.
    pub open spec fn byte(self) -> u8 {
        match self {
            Sex::Female => 0u8,
            Sex::Male => 1u8,
        }
    }
}

impl TryFrom<u8> for Sex {
    type Error = Error;

    fn try_from(b: u8) -> (r: Result<Sex, Error>) {
        match b {
            0 => Ok(Sex::Female),
            1 => Ok(Sex::Male),
            _ => Err(Error::Parse { expected: "0,1", position: 0, actual: b }),
        }
    }
}

impl TryFromSpecImpl<u8> for Sex {
    open spec fn obeys_try_from_spec() -> bool {
        true
    }

    open spec fn try_from_spec(b: u8) -> Result<Sex, Error> {
        if b == 0 {
            Ok(Sex::Female)
        } else if b == 1 {
            Ok(Sex::Male)
        } else {
            Err(Error::Parse { expected: "0,1", position: 0, actual: b })
        }
    }
}

impl From<Sex> for u8 {
    fn from(sex: Sex) -> (b: u8) {
        match sex {
            Sex::Female => 0,
            Sex::Male => 1,
        }
    }
}

impl FromSpecImpl<Sex> for u8 {
    open spec fn obeys_from_spec() -> bool {
        true
    }

    open spec fn from_spec(sex: Sex) -> u8 {
        sex.byte()
    }
}

/// A sex read back from the byte that stands for it is the same.
pub proof fn lemma_sex_round_trip(sex: Sex)
    ensures
        <Sex as TryFromSpec<u8>>::try_from_spec(<u8 as FromSpec<Sex>>::from_spec(sex)) == Ok::<Sex, Error>(sex),
{
}

} // verus!
