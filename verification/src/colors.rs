//! The fixed color table: a small integer index maps to "off" or to a named
//! RGB triple. Pure lookup, total order by index, no mutation at runtime.

use vstd::prelude::*;
use crate::actuator::Rgb;

verus! {

/// Number of entries in the color table: "off" plus six named colors.
pub const COLOR_COUNT: u8 = 7;

/// The name of a color table entry.
#[derive(Structural, Debug, Copy, Clone, PartialEq, Eq)]
pub enum ColorName {
    Red,
    Orange,
    Yellow,
    Green,
    Blue,
    Indigo,
}

/// One color table entry: either "off" or a named RGB triple.
#[derive(Structural, Debug, Copy, Clone, PartialEq, Eq)]
pub enum ColorInfo {
    Off,
    Color { name: ColorName, rgb: Rgb },
}

/// The table itself: entry 0 is "off", entries 1 to 6 are the named colors.
pub open spec fn color_table(index: int) -> ColorInfo {
    if index == 1 {
        ColorInfo::Color { name: ColorName::Red, rgb: Rgb { r: 255, g: 0, b: 0 } }
    } else if index == 2 {
        ColorInfo::Color { name: ColorName::Orange, rgb: Rgb { r: 255, g: 165, b: 0 } }
    } else if index == 3 {
        ColorInfo::Color { name: ColorName::Yellow, rgb: Rgb { r: 255, g: 255, b: 0 } }
    } else if index == 4 {
        ColorInfo::Color { name: ColorName::Green, rgb: Rgb { r: 127, g: 255, b: 0 } }
    } else if index == 5 {
        ColorInfo::Color { name: ColorName::Blue, rgb: Rgb { r: 4, g: 213, b: 237 } }
    } else if index == 6 {
        ColorInfo::Color { name: ColorName::Indigo, rgb: Rgb { r: 75, g: 0, b: 130 } }
    } else {
        ColorInfo::Off
    }
}

/// Look an index up in the color table. An index inside the table returns its
/// entry; any other index returns nothing.
pub fn color_lookup(index: u8) -> (r: Option<ColorInfo>)
    ensures
        index < COLOR_COUNT ==> r == Some(color_table(index as int)),
        index >= COLOR_COUNT ==> r is None,
{
    match index {
        0 => Some(ColorInfo::Off),
        1 => Some(ColorInfo::Color { name: ColorName::Red, rgb: Rgb { r: 255, g: 0, b: 0 } }),
        2 => Some(ColorInfo::Color { name: ColorName::Orange, rgb: Rgb { r: 255, g: 165, b: 0 } }),
        3 => Some(ColorInfo::Color { name: ColorName::Yellow, rgb: Rgb { r: 255, g: 255, b: 0 } }),
        4 => Some(ColorInfo::Color { name: ColorName::Green, rgb: Rgb { r: 127, g: 255, b: 0 } }),
        5 => Some(ColorInfo::Color { name: ColorName::Blue, rgb: Rgb { r: 4, g: 213, b: 237 } }),
        6 => Some(ColorInfo::Color { name: ColorName::Indigo, rgb: Rgb { r: 75, g: 0, b: 130 } }),
        _ => None,
    }
}

impl ColorName {
    /// The display name of the color.
    pub fn label(&self) -> (r: &'static str)
        ensures
            *self == ColorName::Red ==> r@ == "Red"@,
            *self == ColorName::Orange ==> r@ == "Orange"@,
            *self == ColorName::Yellow ==> r@ == "Yellow"@,
            *self == ColorName::Green ==> r@ == "Green"@,
            *self == ColorName::Blue ==> r@ == "Blue"@,
            *self == ColorName::Indigo ==> r@ == "Indigo"@,
    {
        match self {
            ColorName::Red => "Red",
            ColorName::Orange => "Orange",
            ColorName::Yellow => "Yellow",
            ColorName::Green => "Green",
            ColorName::Blue => "Blue",
            ColorName::Indigo => "Indigo",
        }
    }
}

} // verus!
