//! Icons for a status line.

use vstd::prelude::*;

verus! {

/// The icon for a charge of the battery in percent: one of five, from
/// empty below 5 to full from 90 on.
pub open spec fn spec_battery_icon(level: u8) -> char {
    if level >= 90 {
        '\u{f240}'
    } else if level >= 65 {
        '\u{f241}'
    } else if level >= 35 {
        '\u{f242}'
    } else if level >= 5 {
        '\u{f243}'
    } else {
        '\u{f244}'
    }
}

/// Picks the icon for a charge of the battery.
pub fn battery_icon(level: u8) -> (icon: char)
    ensures
        icon == spec_battery_icon(level),
{
    if level >= 90 {
        '\u{f240}'
    } else if level >= 65 {
        '\u{f241}'
    } else if level >= 35 {
        '\u{f242}'
    } else if level >= 5 {
        '\u{f243}'
    } else {
        '\u{f244}'
    }
}

} // verus!
