//! Color policy: the fixed category-to-color table, effect-command
//! classification, and effect-command display formatting.

use vstd::prelude::*;

verus! {

/// One RGBA pixel, 8 bits per channel.
#[derive(Clone, Copy, PartialEq, Eq, Structural, Debug)]
pub struct Rgba {
    pub r: u8,
    pub g: u8,
    pub b: u8,
    pub a: u8,
}

/// The ten semantic color categories of the pattern view.
#[derive(Clone, Copy, PartialEq, Eq, Structural, Debug)]
pub enum Category {
    Background,
    DefaultText,
    Volume,
    Panning,
    Pitch,
    Delay,
    GlobalEffect,
    OtherEffect,
    DspEffect,
    UnusedEffect,
}

/// The fixed color of a category in its normal or highlighted variant.
pub open spec fn spec_color(cat: Category, highlighted: bool) -> Rgba {
    match cat {
        Category::Background => if highlighted {
            Rgba { r: 0x29, g: 0x29, b: 0x29, a: 255 }
        } else {
            Rgba { r: 0x15, g: 0x15, b: 0x15, a: 255 }
        },
        Category::DefaultText => if highlighted {
            Rgba { r: 0xFF, g: 0xFF, b: 0xFF, a: 255 }
        } else {
            Rgba { r: 0x94, g: 0x94, b: 0x94, a: 255 }
        },
        Category::Volume => if highlighted {
            Rgba { r: 0xBF, g: 0xAE, b: 0x25, a: 255 }
        } else {
            Rgba { r: 0xD4, g: 0xCE, b: 0x2A, a: 255 }
        },
        Category::Panning => if highlighted {
            Rgba { r: 0x81, g: 0xAF, b: 0x72, a: 255 }
        } else {
            Rgba { r: 0x9D, g: 0xD6, b: 0x8C, a: 255 }
        },
        Category::Pitch => if highlighted {
            Rgba { r: 0x9B, g: 0x44, b: 0x1D, a: 255 }
        } else {
            Rgba { r: 0xB4, g: 0x4F, b: 0x21, a: 255 }
        },
        Category::Delay => if highlighted {
            Rgba { r: 0x3D, g: 0xB4, b: 0xDA, a: 255 }
        } else {
            Rgba { r: 0x42, g: 0xC1, b: 0xEA, a: 255 }
        },
        Category::GlobalEffect => if highlighted {
            Rgba { r: 0xC6, g: 0x76, b: 0x10, a: 255 }
        } else {
            Rgba { r: 0xFD, g: 0x97, b: 0x14, a: 255 }
        },
        Category::OtherEffect => if highlighted {
            Rgba { r: 0x9A, g: 0x56, b: 0x9B, a: 255 }
        } else {
            Rgba { r: 0xBA, g: 0x68, b: 0xBB, a: 255 }
        },
        Category::DspEffect => if highlighted {
            Rgba { r: 0xE5, g: 0xE5, b: 0xE5, a: 255 }
        } else {
            Rgba { r: 0xDB, g: 0xDB, b: 0xDB, a: 255 }
        },
        Category::UnusedEffect => Rgba { r: 0x9C, g: 0x9C, b: 0x9C, a: 255 },
    }
}

/// Looks the category's normal or highlighted color up in the fixed table.
pub fn color_of(cat: Category, highlighted: bool) -> (c: Rgba)
    ensures
        c == spec_color(cat, highlighted),
{
    match cat {
        Category::Background => if highlighted {
            Rgba { r: 0x29, g: 0x29, b: 0x29, a: 255 }
        } else {
            Rgba { r: 0x15, g: 0x15, b: 0x15, a: 255 }
        },
        Category::DefaultText => if highlighted {
            Rgba { r: 0xFF, g: 0xFF, b: 0xFF, a: 255 }
        } else {
            Rgba { r: 0x94, g: 0x94, b: 0x94, a: 255 }
        },
        Category::Volume => if highlighted {
            Rgba { r: 0xBF, g: 0xAE, b: 0x25, a: 255 }
        } else {
            Rgba { r: 0xD4, g: 0xCE, b: 0x2A, a: 255 }
        },
        Category::Panning => if highlighted {
            Rgba { r: 0x81, g: 0xAF, b: 0x72, a: 255 }
        } else {
            Rgba { r: 0x9D, g: 0xD6, b: 0x8C, a: 255 }
        },
        Category::Pitch => if highlighted {
            Rgba { r: 0x9B, g: 0x44, b: 0x1D, a: 255 }
        } else {
            Rgba { r: 0xB4, g: 0x4F, b: 0x21, a: 255 }
        },
        Category::Delay => if highlighted {
            Rgba { r: 0x3D, g: 0xB4, b: 0xDA, a: 255 }
        } else {
            Rgba { r: 0x42, g: 0xC1, b: 0xEA, a: 255 }
        },
        Category::GlobalEffect => if highlighted {
            Rgba { r: 0xC6, g: 0x76, b: 0x10, a: 255 }
        } else {
            Rgba { r: 0xFD, g: 0x97, b: 0x14, a: 255 }
        },
        Category::OtherEffect => if highlighted {
            Rgba { r: 0x9A, g: 0x56, b: 0x9B, a: 255 }
        } else {
            Rgba { r: 0xBA, g: 0x68, b: 0xBB, a: 255 }
        },
        Category::DspEffect => if highlighted {
            Rgba { r: 0xE5, g: 0xE5, b: 0xE5, a: 255 }
        } else {
            Rgba { r: 0xDB, g: 0xDB, b: 0xDB, a: 255 }
        },
        Category::UnusedEffect => Rgba { r: 0x9C, g: 0x9C, b: 0x9C, a: 255 },
    }
}

/// Whether `c` is the second character of a global effect mnemonic `Z?`.
pub open spec fn is_global_second(c: char) -> bool {
    c == 'T' || c == 'L' || c == 'K' || c == 'G' || c == 'B' || c == 'D'
}

/// Whether a second character `c` marks a pitch effect.
pub open spec fn is_pitch_second(c: char) -> bool {
    c == 'A' || c == 'U' || c == 'D' || c == 'G' || c == 'V'
}

/// Whether a second character `c` marks a volume effect.
pub open spec fn is_volume_second(c: char) -> bool {
    c == 'I' || c == 'O' || c == 'T' || c == 'C' || c == 'M' || c == 'L'
}

/// Whether a second character `c` marks a delay effect.
pub open spec fn is_delay_second(c: char) -> bool {
    c == 'S' || c == 'B' || c == 'E' || c == 'Q' || c == 'R' || c == 'Y'
}

/// Whether a second character `c` marks a panning effect.
pub open spec fn is_panning_second(c: char) -> bool {
    c == 'N' || c == 'P' || c == 'W'
}

/// Whether a second character `c` marks an other-effect command.
pub open spec fn is_other_second(c: char) -> bool {
    c == 'X' || c == 'Z' || c == 'J'
}

/// The category of a two-character effect mnemonic: the exact global-effect
/// match on `Z?` is checked first, then the second-character rules in order;
/// a mnemonic matching no rule is an unused effect.
pub open spec fn spec_fx_category(s: Seq<char>) -> Category {
    if s.len() == 2 && s[0] == 'Z' && is_global_second(s[1]) {
        Category::GlobalEffect
    } else if s.len() == 2 && is_pitch_second(s[1]) {
        Category::Pitch
    } else if s.len() == 2 && is_volume_second(s[1]) {
        Category::Volume
    } else if s.len() == 2 && is_delay_second(s[1]) {
        Category::Delay
    } else if s.len() == 2 && is_panning_second(s[1]) {
        Category::Panning
    } else if s.len() == 2 && is_other_second(s[1]) {
        Category::OtherEffect
    } else {
        Category::UnusedEffect
    }
}

/// Classifies an effect-command mnemonic into its color category.
pub fn fx_category(number: &String) -> (cat: Category)
    ensures
        cat == spec_fx_category(number@),
{
    let len = number.as_str().unicode_len();
    if len != 2 {
        return Category::UnusedEffect;
    }
    let c0 = number.as_str().get_char(0);
    let c1 = number.as_str().get_char(1);
    if c0 == 'Z' && (c1 == 'T' || c1 == 'L' || c1 == 'K' || c1 == 'G' || c1 == 'B' || c1 == 'D') {
        Category::GlobalEffect
    } else if c1 == 'A' || c1 == 'U' || c1 == 'D' || c1 == 'G' || c1 == 'V' {
        Category::Pitch
    } else if c1 == 'I' || c1 == 'O' || c1 == 'T' || c1 == 'C' || c1 == 'M' || c1 == 'L' {
        Category::Volume
    } else if c1 == 'S' || c1 == 'B' || c1 == 'E' || c1 == 'Q' || c1 == 'R' || c1 == 'Y' {
        Category::Delay
    } else if c1 == 'N' || c1 == 'P' || c1 == 'W' {
        Category::Panning
    } else if c1 == 'X' || c1 == 'Z' || c1 == 'J' {
        Category::OtherEffect
    } else {
        Category::UnusedEffect
    }
}

/// How a two-character effect command is displayed: a leading digit `0` is
/// replaced by a space; any other command is shown verbatim.
pub open spec fn spec_fx_command(s: Seq<char>) -> Seq<char> {
    if s.len() == 2 && s[0] == '0' {
        seq![' ', s[1]]
    } else {
        s
    }
}

/// Formats an effect command for display, suppressing a leading zero digit.
pub fn fx_command(number: &String) -> (r: String)
    requires
        number@.len() == 2,
    ensures
        r@ == spec_fx_command(number@),
{
    if number.as_str().get_char(0) == '0' {
        let tail = number.as_str().substring_char(1, 2);
        let r = String::from_str(" ").concat(tail);
        proof {
            reveal_strlit(" ");
            assert(r@ =~= spec_fx_command(number@));
        }
        r
    } else {
        String::from_str(number.as_str())
    }
}

} // verus!
