use vstd::prelude::*;

use crate::color::Color;

verus! {

/// The UTF-16 code units of one character.
pub open spec fn char_utf16(c: char) -> Seq<u16> {
    let v = c as u32 as int;
    if v < 0x10000 {
        seq![v as u16]
    } else {
        seq![(0xD800 + (v - 0x10000) / 0x400) as u16, (0xDC00 + (v - 0x10000) % 0x400) as u16]
    }
}

/// The UTF-16 encoding of a character sequence, without byte-order mark.
pub open spec fn utf16_of(s: Seq<char>) -> Seq<u16>
    decreases s.len(),
{
    if s.len() == 0 {
        seq![]
    } else {
        utf16_of(s.drop_last()) + char_utf16(s.last())
    }
}

/// Relies on str::encode_utf16: the string's characters encoded as UTF-16.
#[verifier::external_body]
fn encode_utf16(s: &str) -> (r: Vec<u16>)
    ensures
        r@ == utf16_of(s@),
{
    s.encode_utf16().collect()
}

/// A NUL-terminated UTF-16 string, the form text takes in a draw command.
#[derive(Clone, PartialEq, Debug)]
pub struct UString {
    data: Vec<u16>,
}

impl View for UString {
    type V = Seq<u16>;

    closed spec fn view(&self) -> Seq<u16> {
        self.data@
    }
}

impl UString {
    /// Encodes `string` as UTF-16 and appends a terminating zero unit.
    pub fn new(string: &str) -> (r: Self)
        ensures
            r@ == utf16_of(string@).push(0u16),
    {
        let mut data = encode_utf16(string);
        data.push(0);
        Self { data }
    }

    /// The code units, terminating zero included.
    pub fn units(&self) -> (r: &[u16])
        ensures
            r@ == self@,
    {
        self.data.as_slice()
    }
}

impl From<String> for UString {
    fn from(value: String) -> (r: Self)
        ensures
            r@ == utf16_of(value@).push(0u16),
    {
        UString::new(value.as_str())
    }
}

impl vstd::std_specs::convert::FromSpecImpl<String> for UString {
    // Two values with the same code units need not be the same `Vec`, so
    // the result is stated over the view, by `from`'s own `ensures`.
    open spec fn obeys_from_spec() -> bool {
        false
    }

    open spec fn from_spec(v: String) -> UString {
        choose|u: UString| u@ == utf16_of(v@).push(0u16)
    }
}

/// Font parameters of a text command: pixel size, italic, underlined.
#[derive(Clone, Copy, Debug, PartialEq, Eq, Structural)]
pub struct FontInfo(pub u32, pub bool, pub bool);

impl FontInfo {
    pub fn new(px: u32, is_italic: bool, is_under_line: bool) -> (r: Self)
        ensures
            r.0 == px,
            r.1 == is_italic,
            r.2 == is_under_line,
    {
        FontInfo(px, is_italic, is_under_line)
    }
}

/// One recorded drawing operation. Geometry is in device pixels, with
/// (x, y) the top-left corner.
#[derive(Clone, Debug, PartialEq)]
pub enum DrawTarget {
    /// Clear(color)
    Clear(Color),
    /// FillRectangle(fill color, border color, x, y, width, height)
    FillRectangle(Color, Color, u32, u32, u32, u32),
    /// DrawRectangle(color, x, y, thickness, width, height)
    DrawRectangle(Color, u32, u32, u32, u32, u32),
    /// DrawText(color, font, x, y, box width, box height, text)
    DrawText(Color, FontInfo, u32, u32, u32, u32, UString),
}

} // verus!
