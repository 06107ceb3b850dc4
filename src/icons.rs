use vstd::prelude::*;

verus! {

/// Symbolic names of the glyphs in the bundled icon font.
#[derive(Debug, Clone, Copy, PartialEq, Eq, Structural)]
pub enum Icon {
    AlertSquareRounded,
    InfoSquareRounded,
    PlaystationCircle,
    PlaystationSquare,
    PlaystationTriangle,
    PlaystationX,
    XboxA,
    XboxB,
    XboxX,
    XboxY,
}

/// The code point of each icon in the icon font.
pub open spec fn icon_code_point(icon: Icon) -> u32 {
    match icon {
        Icon::AlertSquareRounded => 0xf810,
        Icon::InfoSquareRounded => 0xf635,
        Icon::PlaystationCircle => 0xf2ad,
        Icon::PlaystationSquare => 0xf2ae,
        Icon::PlaystationTriangle => 0xf2af,
        Icon::PlaystationX => 0xf2b0,
        Icon::XboxA => 0xf2b6,
        Icon::XboxB => 0xf2b7,
        Icon::XboxX => 0xf2b8,
        Icon::XboxY => 0xf2b9,
    }
}

impl Icon {
    /// The character that draws this icon when set in the icon font.
    pub fn as_char(&self) -> (r: char)
        ensures
            r as u32 == icon_code_point(*self),
    {
        match self {
            Icon::AlertSquareRounded => '\u{f810}',
            Icon::InfoSquareRounded => '\u{f635}',
            Icon::PlaystationCircle => '\u{f2ad}',
            Icon::PlaystationSquare => '\u{f2ae}',
            Icon::PlaystationTriangle => '\u{f2af}',
            Icon::PlaystationX => '\u{f2b0}',
            Icon::XboxA => '\u{f2b6}',
            Icon::XboxB => '\u{f2b7}',
            Icon::XboxX => '\u{f2b8}',
            Icon::XboxY => '\u{f2b9}',
        }
    }
}

} // verus!
