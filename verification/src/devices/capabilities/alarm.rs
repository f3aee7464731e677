//! Alarms: on which days one repeats, and the slot that the band keeps.

use vstd::prelude::*;
use crate::devices::{datetime_as_bytes, spec_datetime_as_bytes, DateTime};

verus! {

/// On which days an alarm repeats.
#[derive(Debug, Clone, Copy, PartialEq, Eq)]
pub enum AlarmFrequency {
    Once,
    Monday,
    Tuesday,
    Wednesday,
    Thursday,
    Friday,
    Saturday,
    Sunday,
    Workweek,
    Weekends,
    Everyday,
}

impl AlarmFrequency {
    /// The days on which the alarm repeats, one bit for each day of the
    /// week from Monday at bit 0 to Sunday at bit 6.
    pub open spec fn spec_as_bits(self) -> u8 {
        match self {
            AlarmFrequency::Once => 0b0u8,
            AlarmFrequency::Monday => 0b1u8,
            AlarmFrequency::Tuesday => 0b10u8,
            AlarmFrequency::Wednesday => 0b100u8,
            AlarmFrequency::Thursday => 0b1000u8,
            AlarmFrequency::Friday => 0b10000u8,
            AlarmFrequency::Saturday => 0b100000u8,
            AlarmFrequency::Sunday => 0b1000000u8,
            AlarmFrequency::Workweek => 0b11111u8,
            AlarmFrequency::Weekends => 0b1100000u8,
            AlarmFrequency::Everyday => 0b1111111u8,
        }
    }

    /// The days of repetition as the band expects them.
    #[verifier::when_used_as_spec(spec_as_bits)]
    pub fn as_bits(self) -> (bits: u8)
        ensures
            bits == self.spec_as_bits(),
            bits < 0x80,
    {
        match self {
            AlarmFrequency::Once => 0b0,
            AlarmFrequency::Monday => 0b1,
            AlarmFrequency::Tuesday => 0b10,
            AlarmFrequency::Wednesday => 0b100,
            AlarmFrequency::Thursday => 0b1000,
            AlarmFrequency::Friday => 0b10000,
            AlarmFrequency::Saturday => 0b100000,
            AlarmFrequency::Sunday => 0b1000000,
            AlarmFrequency::Workweek => 0b11111,
            AlarmFrequency::Weekends => 0b1100000,
            AlarmFrequency::Everyday => 0b1111111,
        }
    }
}

/// The three named combinations are the days they name, taken together: the
/// work week is Monday to Friday, the weekend is Saturday and Sunday, and
/// every day is both.
pub proof fn lemma_named_combinations()
    ensures
        AlarmFrequency::Workweek.spec_as_bits() == AlarmFrequency::Monday.spec_as_bits()
            | AlarmFrequency::Tuesday.spec_as_bits() | AlarmFrequency::Wednesday.spec_as_bits()
            | AlarmFrequency::Thursday.spec_as_bits() | AlarmFrequency::Friday.spec_as_bits(),
        AlarmFrequency::Weekends.spec_as_bits() == AlarmFrequency::Saturday.spec_as_bits()
            | AlarmFrequency::Sunday.spec_as_bits(),
        AlarmFrequency::Everyday.spec_as_bits() == AlarmFrequency::Workweek.spec_as_bits()
            | AlarmFrequency::Weekends.spec_as_bits(),
        AlarmFrequency::Workweek.spec_as_bits() & AlarmFrequency::Weekends.spec_as_bits() == 0,
{
    assert(0b11111u8 == 0b1u8 | 0b10u8 | 0b100u8 | 0b1000u8 | 0b10000u8) by (bit_vector);
    assert(0b1100000u8 == 0b100000u8 | 0b1000000u8) by (bit_vector);
    assert(0b1111111u8 == 0b11111u8 | 0b1100000u8) by (bit_vector);
    assert(0b11111u8 & 0b1100000u8 == 0) by (bit_vector);
}

/// One of the alarms that the band keeps.
#[derive(Debug, Clone, Copy, PartialEq, Eq)]
pub struct AlarmSlot {
    /// The band's own index of the slot.
    pub id: u8,
    pub enabled: bool,
    /// When the alarm goes off.
    pub at: DateTime,
    /// Whether the band may wake the wearer early, in light sleep.
    pub smart: bool,
    pub frequency: AlarmFrequency,
}

/// The byte that stands for a flag.
pub open spec fn flag_byte(flag: bool) -> u8 {
    if flag {
        1
    } else {
        0
    }
}

impl AlarmSlot {
    /// The slot on the wire: its id, whether it is enabled, the compact
    /// date and time, the smart-wake flag and the days of repetition.
    pub open spec fn spec_to_bytes(&self) -> Seq<u8> {
        seq![self.id, flag_byte(self.enabled)] + spec_datetime_as_bytes(self.at) + seq![
            flag_byte(self.smart),
            self.frequency.spec_as_bits(),
        ]
    }

    /// Lays the slot out as the band expects it.
    pub fn to_bytes(&self) -> (b: [u8; 10])
        ensures
            b@ == self.spec_to_bytes(),
    {
        let at = datetime_as_bytes(&self.at);
        let b: [u8; 10] = [
            self.id,
            if self.enabled { 1 } else { 0 },
            at[0],
            at[1],
            at[2],
            at[3],
            at[4],
            at[5],
            if self.smart { 1 } else { 0 },
            self.frequency.as_bits(),
        ];
        assert(b@ =~= self.spec_to_bytes());
        b
    }
}

} // verus!
