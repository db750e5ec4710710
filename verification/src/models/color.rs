//! Colours as three eight-bit channels.

use vstd::prelude::*;

verus! {

/// An opaque colour: red, green and blue.
#[derive(Debug, Clone, Copy, PartialEq, Eq, Structural)]
pub struct Rgb {
    pub r: u8,
    pub g: u8,
    pub b: u8,
}

impl Rgb {
    /// The colour with the given channels.
    pub fn new(r: u8, g: u8, b: u8) -> (c: Rgb)
        ensures
            c == (Rgb { r, g, b }),
    {
        Rgb { r, g, b }
    }
}

/// White.
pub open spec fn white() -> Rgb {
    Rgb { r: 255, g: 255, b: 255 }
}

/// Red.
pub open spec fn red() -> Rgb {
    Rgb { r: 255, g: 0, b: 0 }
}

/// The grey of secondary text.
pub open spec fn gray() -> Rgb {
    Rgb { r: 160, g: 160, b: 160 }
}

/// The light grey that untagged colour falls back to on a dark background.
pub open spec fn light_gray() -> Rgb {
    Rgb { r: 220, g: 220, b: 220 }
}

/// The dark grey that untagged colour falls back to on a light background.
pub open spec fn dark_gray() -> Rgb {
    Rgb { r: 96, g: 96, b: 96 }
}

/// The colour a tag is shown in when it has none of its own.
pub open spec fn fallback_tag_color(darkmode: bool) -> Rgb {
    if darkmode {
        light_gray()
    } else {
        dark_gray()
    }
}

} // verus!
