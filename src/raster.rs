//! The pixel model: a row-major RGBA8 byte buffer and what each drawing
//! primitive does to it.

use vstd::prelude::*;

use crate::color::{color_rgba, Rgba};
use crate::command::DrawTarget;

verus! {

/// What a pixel canvas holds: its size and its bytes, row-major from the
/// top row down, four bytes R, G, B, A per pixel.
pub struct RasterView {
    pub width: nat,
    pub height: nat,
    pub bytes: Seq<u8>,
}

impl RasterView {
    /// The buffer has exactly four bytes per pixel.
    pub open spec fn well_formed(self) -> bool {
        self.bytes.len() == self.width * self.height * 4
    }
}

/// The column of the pixel that byte `i` belongs to.
pub open spec fn pixel_x(i: int, width: nat) -> int {
    (i / 4) % (width as int)
}

/// The row of the pixel that byte `i` belongs to.
pub open spec fn pixel_y(i: int, width: nat) -> int {
    (i / 4) / (width as int)
}

/// Channel `k` of a color: 0 red, 1 green, 2 blue, 3 alpha.
pub open spec fn channel(c: Rgba, k: int) -> u8 {
    if k == 0 {
        c.0
    } else if k == 1 {
        c.1
    } else if k == 2 {
        c.2
    } else {
        c.3
    }
}

/// The four bytes of pixel (px, py).
pub open spec fn pixel_at(v: RasterView, px: int, py: int) -> Rgba {
    let i = (py * v.width + px) * 4;
    (v.bytes[i], v.bytes[i + 1], v.bytes[i + 2], v.bytes[i + 3])
}

/// Whether pixel (px, py) lies in the rectangle [x, x + w) × [y, y + h).
pub open spec fn in_rect(px: int, py: int, x: int, y: int, w: int, h: int) -> bool {
    x <= px < x + w && y <= py < y + h
}

/// Whether pixel (px, py) lies on the outline of stroke `t` of the rectangle
/// [x, x + w) × [y, y + h): inside it, but not inside the rectangle shrunk by
/// `t` on each side.
pub open spec fn in_outline(px: int, py: int, x: int, y: int, w: int, h: int, t: int) -> bool {
    in_rect(px, py, x, y, w, h) && !in_rect(px, py, x + t, y + t, w - 2 * t, h - 2 * t)
}

/// Every pixel set to `c`.
pub open spec fn cleared(v: RasterView, c: Rgba) -> RasterView {
    RasterView {
        width: v.width,
        height: v.height,
        bytes: Seq::new(v.width * v.height * 4, |i: int| channel(c, i % 4)),
    }
}

/// The pixels of [x, x + w) × [y, y + h) set to `c`, the others kept.
pub open spec fn filled(v: RasterView, x: int, y: int, w: int, h: int, c: Rgba) -> RasterView {
    RasterView {
        width: v.width,
        height: v.height,
        bytes: Seq::new(
            v.bytes.len(),
            |i: int|
                if in_rect(pixel_x(i, v.width), pixel_y(i, v.width), x, y, w, h) {
                    channel(c, i % 4)
                } else {
                    v.bytes[i]
                },
        ),
    }
}

/// The pixels of the outline of stroke `t` of [x, x + w) × [y, y + h) set
/// to `c`, the others kept.
pub open spec fn outlined(
    v: RasterView,
    x: int,
    y: int,
    w: int,
    h: int,
    t: int,
    c: Rgba,
) -> RasterView {
    RasterView {
        width: v.width,
        height: v.height,
        bytes: Seq::new(
            v.bytes.len(),
            |i: int|
                if in_outline(pixel_x(i, v.width), pixel_y(i, v.width), x, y, w, h, t) {
                    channel(c, i % 4)
                } else {
                    v.bytes[i]
                },
        ),
    }
}

/// Why a rectangle command was skipped. Each variant carries the rectangle
/// as it was asked for.
#[derive(Clone, Copy, Debug, PartialEq, Eq, Structural)]
pub enum GeometryError {
    /// `x + width` or `y + height` does not fit in 32 bits.
    Overflow { x: u32, y: u32, width: u32, height: u32 },
    /// Nothing of the rectangle, or of its outline, lies on the canvas.
    Empty { x: u32, y: u32, width: u32, height: u32 },
}

/// Whether filling [x, x + w) × [y, y + h) on a canvas of the given size
/// may go ahead, and if not, why.
pub open spec fn check_rect(width: nat, height: nat, x: u32, y: u32, w: u32, h: u32) -> Result<
    (),
    GeometryError,
> {
    if x + w > u32::MAX || y + h > u32::MAX {
        Err(GeometryError::Overflow { x, y, width: w, height: h })
    } else if w == 0 || h == 0 || x >= width || y >= height {
        Err(GeometryError::Empty { x, y, width: w, height: h })
    } else {
        Ok(())
    }
}

/// Whether drawing the outline of stroke `t` of [x, x + w) × [y, y + h) may
/// go ahead, and if not, why.
pub open spec fn check_outline(
    width: nat,
    height: nat,
    x: u32,
    y: u32,
    w: u32,
    h: u32,
    t: u32,
) -> Result<(), GeometryError> {
    if check_rect(width, height, x, y, w, h) is Err {
        check_rect(width, height, x, y, w, h)
    } else if t == 0 {
        Err(GeometryError::Empty { x, y, width: w, height: h })
    } else {
        Ok(())
    }
}

/// Width of the interior of a bordered rectangle of width `w`.
pub open spec fn inner_extent(w: u32) -> u32 {
    if w >= 2 {
        (w - 2) as u32
    } else {
        0
    }
}

/// The effect of a filled rectangle with a one-pixel border: the border is
/// drawn first over the full extent, then the interior
/// (x + 1, y + 1, w - 2, h - 2) is filled. A border that cannot be drawn
/// skips the whole command; an interior that is empty, or has nothing on the
/// canvas, is reported like any other fill, and the border stays.
pub open spec fn run_bordered_fill(
    v: RasterView,
    fill: Rgba,
    border: Rgba,
    x: u32,
    y: u32,
    w: u32,
    h: u32,
) -> (RasterView, Seq<GeometryError>) {
    match check_outline(v.width, v.height, x, y, w, h, 1) {
        Err(e) => (v, seq![e]),
        Ok(_) => {
            let b = outlined(v, x as int, y as int, w as int, h as int, 1, border);
            let (ix, iy) = ((x + 1) as u32, (y + 1) as u32);
            let (iw, ih) = (inner_extent(w), inner_extent(h));
            match check_rect(v.width, v.height, ix, iy, iw, ih) {
                Err(e) => (b, seq![e]),
                Ok(_) => (filled(b, ix as int, iy as int, iw as int, ih as int, fill), seq![]),
            }
        },
    }
}

/// The effect of one command on a canvas, and the errors it reports.
pub open spec fn run_command(v: RasterView, cmd: DrawTarget) -> (RasterView, Seq<GeometryError>) {
    match cmd {
        DrawTarget::Clear(c) => (cleared(v, color_rgba(c)), seq![]),
        DrawTarget::FillRectangle(fill, border, x, y, w, h) => run_bordered_fill(
            v,
            color_rgba(fill),
            color_rgba(border),
            x,
            y,
            w,
            h,
        ),
        DrawTarget::DrawRectangle(c, x, y, t, w, h) => match check_outline(
            v.width,
            v.height,
            x,
            y,
            w,
            h,
            t,
        ) {
            Err(e) => (v, seq![e]),
            Ok(_) => (outlined(v, x as int, y as int, w as int, h as int, t as int, color_rgba(c)), seq![]),
        },
        DrawTarget::DrawText(..) => (v, seq![]),
    }
}

/// The effect of a command sequence, applied in order, and the errors
/// reported along the way, in order.
pub open spec fn run_commands(v: RasterView, cmds: Seq<DrawTarget>) -> (RasterView, Seq<GeometryError>)
    decreases cmds.len(),
{
    if cmds.len() == 0 {
        (v, seq![])
    } else {
        let (before, errs) = run_commands(v, cmds.drop_last());
        let (after, more) = run_command(before, cmds.last());
        (after, errs + more)
    }
}

} // verus!
