use vstd::prelude::*;

verus! {

/// An RGBA quadruple with 8 bits per channel, in the order R, G, B, A.
pub type Rgba = (u8, u8, u8, u8);

/// The fixed palette of symbolic colors.
#[derive(Copy, Clone, Debug, PartialEq, Eq, Structural)]
pub enum Color {
    White,
    Olive,
    Yellow,
    Fuchsia,
    Silver,
    Aqua,
    Lime,
    Red,
    Gray,
    Blue,
    Green,
    Purple,
    Black,
    Navy,
    Teal,
    Maroon,
}

/// The RGBA8 value of each palette entry.
pub open spec fn color_rgba(c: Color) -> Rgba {
    match c {
        Color::White => (255, 255, 255, 255),
        Color::Olive => (128, 128, 0, 255),
        Color::Yellow => (255, 255, 0, 255),
        Color::Fuchsia => (255, 0, 255, 255),
        Color::Silver => (192, 192, 192, 192),
        Color::Aqua => (0, 255, 255, 255),
        Color::Lime => (0, 255, 0, 255),
        Color::Red => (255, 0, 0, 255),
        Color::Gray => (128, 128, 128, 255),
        Color::Blue => (0, 0, 255, 255),
        Color::Green => (0, 128, 0, 255),
        Color::Purple => (128, 0, 128, 255),
        Color::Black => (0, 0, 0, 255),
        Color::Navy => (0, 0, 128, 255),
        Color::Teal => (0, 128, 128, 255),
        Color::Maroon => (128, 0, 0, 255),
    }
}

impl Color {
    /// Looks the color up in the palette table.
    pub fn rgba(self) -> (r: Rgba)
        ensures
            r == color_rgba(self),
    {
        match self {
            Color::White => (255, 255, 255, 255),
            Color::Olive => (128, 128, 0, 255),
            Color::Yellow => (255, 255, 0, 255),
            Color::Fuchsia => (255, 0, 255, 255),
            Color::Silver => (192, 192, 192, 192),
            Color::Aqua => (0, 255, 255, 255),
            Color::Lime => (0, 255, 0, 255),
            Color::Red => (255, 0, 0, 255),
            Color::Gray => (128, 128, 128, 255),
            Color::Blue => (0, 0, 255, 255),
            Color::Green => (0, 128, 0, 255),
            Color::Purple => (128, 0, 128, 255),
            Color::Black => (0, 0, 0, 255),
            Color::Navy => (0, 0, 128, 255),
            Color::Teal => (0, 128, 128, 255),
            Color::Maroon => (128, 0, 0, 255),
        }
    }
}

} // verus!
