//! The pixel canvas: an RGBA8 image of immo's, driven so that every write is
//! validated and clipped as the raster model prescribes.

use vstd::prelude::*;

use crate::color::Rgba;
use crate::command::DrawTarget;
use crate::raster::{
    channel, check_outline, check_rect, cleared, filled, in_outline, outlined, pixel_x,
    pixel_y, run_command, run_commands, GeometryError, RasterView,
};

verus! {

#[verifier::external_type_specification]
#[verifier::external_body]
pub struct ExPng(immo::png::Png);

#[verifier::external_type_specification]
#[verifier::external_body]
pub struct ExImageError(immo::error::ImageError);

/// The bytes an immo image holds, row-major RGBA8.
pub uninterp spec fn png_bytes(p: immo::png::Png) -> Seq<u8>;

/// The width and height an immo image was made with.
pub uninterp spec fn png_size(p: immo::png::Png) -> (nat, nat);

/// Whether pixel (px, py) lies in [x0, x1] × [y0, y1], both ends included.
pub open spec fn in_closed_box(px: int, py: int, x0: int, y0: int, x1: int, y1: int) -> bool {
    x0 <= px <= x1 && y0 <= py <= y1
}

/// The bytes of an immo image once the pixels for which `inside` holds are
/// set to `c`.
pub open spec fn png_painted(
    p: immo::png::Png,
    c: Rgba,
    inside: spec_fn(int, int) -> bool,
) -> Seq<u8> {
    Seq::new(
        png_bytes(p).len(),
        |i: int|
            if inside(pixel_x(i, png_size(p).0), pixel_y(i, png_size(p).0)) {
                channel(c, i % 4)
            } else {
                png_bytes(p)[i]
            },
    )
}

/// Whether an immo image holds four bytes per pixel, with byte offsets that
/// fit the 32-bit arithmetic it indexes with.
pub open spec fn png_sound(p: immo::png::Png) -> bool {
    &&& png_bytes(p).len() == png_size(p).0 * png_size(p).1 * 4
    &&& png_size(p).0 * png_size(p).1 * 4 <= u32::MAX
}

/// Relies on immo::png::Png::new: an image of the given size whose
/// 4 * width * height bytes are all zero (the pixel count is a u32 product).
#[verifier::external_body]
fn png_new(width: u32, height: u32) -> (r: immo::png::Png)
    requires
        width * height * 4 <= u32::MAX,
    ensures
        png_size(r) == (width as nat, height as nat),
        png_bytes(r) == Seq::new((width * height * 4) as nat, |i: int| 0u8),
{
    immo::png::Png::new(width, height)
}

/// Relies on immo::png::Png::clear: the buffer is rebuilt with every pixel
/// set to the color (the pixel count is a u32 product).
#[verifier::external_body]
fn png_clear(p: &mut immo::png::Png, color: Rgba)
    requires
        png_size(*old(p)).0 * png_size(*old(p)).1 * 4 <= u32::MAX,
    ensures
        png_size(*final(p)) == png_size(*old(p)),
        png_bytes(*final(p)) == Seq::new(
            png_size(*old(p)).0 * png_size(*old(p)).1 * 4,
            |i: int| channel(color, i % 4),
        ),
    no_unwind
{
    p.clear(color)
}

/// Relies on immo::png::Png::fill_rectangle: every on-image pixel with
/// x <= px <= x + width and y <= py <= y + height (ends included) takes the
/// color, through Png::point, which always succeeds; `x + width` and
/// `y + height` are u32 sums.
#[verifier::external_body]
fn png_fill_rectangle(
    p: &mut immo::png::Png,
    x: u32,
    y: u32,
    width: u32,
    height: u32,
    color: Rgba,
) -> (r: Result<(), immo::error::ImageError>)
    requires
        png_sound(*old(p)),
        x + width <= u32::MAX,
        y + height <= u32::MAX,
    ensures
        r is Ok,
        png_size(*final(p)) == png_size(*old(p)),
        png_bytes(*final(p)) == png_painted(
            *old(p),
            color,
            |px: int, py: int| in_closed_box(px, py, x as int, y as int, x + width, y + height),
        ),
    no_unwind
{
    p.fill_rectangle(x, y, width, height, color)
}

/// Relies on immo::png::Png::draw_rectangle: with s = thickness - 1 it fills,
/// as fill_rectangle does, the strips (x, y, width, s), (x, y, s, height),
/// (x, height + y - s, width, s) and (width + x - s, y, s, height); a zero
/// thickness is the one error it reports.
#[verifier::external_body]
fn png_draw_rectangle(
    p: &mut immo::png::Png,
    x: u32,
    y: u32,
    width: u32,
    height: u32,
    thickness: u32,
    color: Rgba,
) -> (r: Result<(), immo::error::ImageError>)
    requires
        png_sound(*old(p)),
        thickness >= 1,
        thickness - 1 <= width,
        thickness - 1 <= height,
        x + width <= u32::MAX,
        y + height <= u32::MAX,
    ensures
        r is Ok,
        png_size(*final(p)) == png_size(*old(p)),
        png_bytes(*final(p)) == png_painted(
            *old(p),
            color,
            |px: int, py: int|
                {
                    let s = thickness - 1;
                    ||| in_closed_box(px, py, x as int, y as int, x + width, y + s)
                    ||| in_closed_box(px, py, x as int, y as int, x + s, y + height)
                    ||| in_closed_box(px, py, x as int, height + y - s, x + width, height + y)
                    ||| in_closed_box(px, py, width + x - s, y as int, width + x, y + height)
                },
        ),
    no_unwind
{
    p.draw_rectangle(x, y, width, height, thickness, color)
}

/// Relies on immo::png::Png::as_slice: the image's bytes.
#[verifier::external_body]
fn png_as_slice(p: &immo::png::Png) -> (r: &[u8])
    ensures
        r@ == png_bytes(*p),
{
    p.as_slice()
}

/// Whether a canvas of this size can be addressed: its byte count fits in
/// 32 bits.
pub open spec fn fits(width: nat, height: nat) -> bool {
    width * height * 4 <= u32::MAX
}

/// Tells whether a canvas of the given size can be made.
pub fn size_fits(width: u32, height: u32) -> (r: bool)
    ensures
        r == fits(width as nat, height as nat),
{
    assert(width as u64 * height as u64 <= u32::MAX as u64 * u32::MAX as u64) by (nonlinear_arith);
    let pixels: u64 = width as u64 * height as u64;
    pixels <= (u32::MAX / 4) as u64
}

/// A packed RGBA8 pixel buffer of a fixed size. Every write is checked
/// against the canvas bounds before any byte changes.
pub struct PixelCanvas {
    png: immo::png::Png,
    width: u32,
    height: u32,
}

impl View for PixelCanvas {
    type V = RasterView;

    closed spec fn view(&self) -> RasterView {
        RasterView { width: self.width as nat, height: self.height as nat, bytes: png_bytes(self.png) }
    }
}

impl PixelCanvas {
    #[verifier::type_invariant]
    spec fn inv(self) -> bool {
        &&& png_size(self.png) == (self.width as nat, self.height as nat)
        &&& png_sound(self.png)
    }

    /// A canvas of the given size with every byte zero.
    pub fn new(width: u32, height: u32) -> (r: Self)
        requires
            fits(width as nat, height as nat),
        ensures
            r@ == (RasterView {
                width: width as nat,
                height: height as nat,
                bytes: Seq::new((width * height * 4) as nat, |i: int| 0u8),
            }),
    {
        PixelCanvas { png: png_new(width, height), width, height }
    }

    pub fn width(&self) -> (r: u32)
        ensures
            r == self@.width,
    {
        self.width
    }

    pub fn height(&self) -> (r: u32)
        ensures
            r == self@.height,
    {
        self.height
    }

    /// Sets every pixel to `color`.
    pub fn clear(&mut self, color: Rgba)
        ensures
            final(self)@ == cleared(old(self)@, color),
    {
        proof {
            use_type_invariant(&*self);
        }
        png_clear(&mut self.png, color);
        assert(png_bytes(self.png) =~= cleared(old(self)@, color).bytes);
    }

    /// Sets every pixel of [x, x + width) × [y, y + height) that lies on the
    /// canvas to `color`. A rectangle whose far edge overflows, or that
    /// leaves nothing on the canvas, is reported and nothing is written.
    pub fn fill_rectangle(&mut self, x: u32, y: u32, width: u32, height: u32, color: Rgba) -> (r:
        Result<(), GeometryError>)
        ensures
            r == check_rect(old(self)@.width, old(self)@.height, x, y, width, height),
            r is Ok ==> final(self)@ == filled(
                old(self)@,
                x as int,
                y as int,
                width as int,
                height as int,
                color,
            ),
            r is Err ==> final(self)@ == old(self)@,
    {
        proof {
            use_type_invariant(&*self);
        }
        if x > u32::MAX - width || y > u32::MAX - height {
            return Err(GeometryError::Overflow { x, y, width, height });
        }
        if width == 0 || height == 0 || x >= self.width || y >= self.height {
            return Err(GeometryError::Empty { x, y, width, height });
        }
        let _ = png_fill_rectangle(&mut self.png, x, y, width - 1, height - 1, color);
        assert(png_bytes(self.png) =~= filled(
            old(self)@,
            x as int,
            y as int,
            width as int,
            height as int,
            color,
        ).bytes);
        Ok(())
    }

    /// Draws the outline of stroke `thickness` of [x, x + width) ×
    /// [y, y + height), clipped to the canvas. A stroke at least half the
    /// rectangle wide covers all of it. The same rectangles as for
    /// `fill_rectangle` are reported, and a zero stroke too.
    pub fn draw_rectangle(
        &mut self,
        x: u32,
        y: u32,
        width: u32,
        height: u32,
        thickness: u32,
        color: Rgba,
    ) -> (r: Result<(), GeometryError>)
        ensures
            r == check_outline(old(self)@.width, old(self)@.height, x, y, width, height, thickness),
            r is Ok ==> final(self)@ == outlined(
                old(self)@,
                x as int,
                y as int,
                width as int,
                height as int,
                thickness as int,
                color,
            ),
            r is Err ==> final(self)@ == old(self)@,
    {
        proof {
            use_type_invariant(&*self);
        }
        if x > u32::MAX - width || y > u32::MAX - height {
            return Err(GeometryError::Overflow { x, y, width, height });
        }
        if width == 0 || height == 0 || x >= self.width || y >= self.height || thickness == 0 {
            return Err(GeometryError::Empty { x, y, width, height });
        }
        // A stroke wider than the rectangle draws the same pixels as one
        // exactly as wide.
        let mut t = thickness;
        if t > width {
            t = width;
        }
        if t > height {
            t = height;
        }
        let _ = png_draw_rectangle(&mut self.png, x, y, width - 1, height - 1, t, color);
        assert forall|px: int, py: int|
            {
                let s = t - 1;
                let (w, h) = ((width - 1) as int, (height - 1) as int);
                ||| in_closed_box(px, py, x as int, y as int, x + w, y + s)
                ||| in_closed_box(px, py, x as int, y as int, x + s, y + h)
                ||| in_closed_box(px, py, x as int, h + y - s, x + w, h + y)
                ||| in_closed_box(px, py, w + x - s, y as int, w + x, y + h)
            } <==> #[trigger] in_outline(
                px,
                py,
                x as int,
                y as int,
                width as int,
                height as int,
                thickness as int,
            ) by {}
        assert(png_bytes(self.png) =~= outlined(
            old(self)@,
            x as int,
            y as int,
            width as int,
            height as int,
            thickness as int,
            color,
        ).bytes);
        Ok(())
    }

    /// Executes one command and returns what it reported. A filled
    /// rectangle draws its one-pixel border first, then fills the interior,
    /// so the fill never covers the border. Each step that cannot be done is
    /// reported; a border that cannot be drawn skips the interior too. Text
    /// is not rasterized.
    pub fn execute(&mut self, cmd: &DrawTarget) -> (errs: Vec<GeometryError>)
        ensures
            (final(self)@, errs@) == run_command(old(self)@, *cmd),
    {
        let mut errs: Vec<GeometryError> = Vec::new();
        match cmd {
            DrawTarget::Clear(c) => {
                self.clear(c.rgba());
            },
            DrawTarget::FillRectangle(fill, border, x, y, w, h) => {
                let (x, y, w, h) = (*x, *y, *w, *h);
                match self.draw_rectangle(x, y, w, h, 1, border.rgba()) {
                    Err(e) => {
                        errs.push(e);
                    },
                    Ok(()) => {
                        let iw: u32 = if w >= 2 { w - 2 } else { 0 };
                        let ih: u32 = if h >= 2 { h - 2 } else { 0 };
                        match self.fill_rectangle(x + 1, y + 1, iw, ih, fill.rgba()) {
                            Err(e) => {
                                errs.push(e);
                            },
                            Ok(()) => {},
                        }
                    },
                }
            },
            DrawTarget::DrawRectangle(c, x, y, t, w, h) => {
                match self.draw_rectangle(*x, *y, *w, *h, *t, c.rgba()) {
                    Err(e) => {
                        errs.push(e);
                    },
                    Ok(()) => {},
                }
            },
            DrawTarget::DrawText(..) => {},
        }
        assert(errs@ =~= run_command(old(self)@, *cmd).1);
        errs
    }

    /// Executes the commands in order, later ones painting over earlier
    /// ones, and returns everything they reported, in order.
    pub fn replay(&mut self, cmds: &[DrawTarget]) -> (errs: Vec<GeometryError>)
        ensures
            (final(self)@, errs@) == run_commands(old(self)@, cmds@),
            final(self)@.well_formed(),
    {
        let mut errs: Vec<GeometryError> = Vec::new();
        let mut i: usize = 0;
        while i < cmds.len()
            invariant
                i <= cmds@.len(),
                (self@, errs@) == run_commands(old(self)@, cmds@.subrange(0, i as int)),
            decreases cmds@.len() - i,
        {
            let mut more = self.execute(&cmds[i]);
            assert(cmds@.subrange(0, i + 1).drop_last() =~= cmds@.subrange(0, i as int));
            errs.append(&mut more);
            i += 1;
        }
        assert(cmds@.subrange(0, cmds@.len() as int) =~= cmds@);
        proof {
            use_type_invariant(&*self);
        }
        errs
    }

    /// The pixel bytes, row-major, four bytes R, G, B, A per pixel.
    pub fn as_bytes(&self) -> (r: &[u8])
        ensures
            r@ == self@.bytes,
            self@.well_formed(),
            fits(self@.width, self@.height),
    {
        proof {
            use_type_invariant(self);
        }
        png_as_slice(&self.png)
    }
}

} // verus!
