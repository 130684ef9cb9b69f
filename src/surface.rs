//! Surfaces: targets that execute a command buffer.

use vstd::prelude::*;

use crate::canvas::{fits, PixelCanvas};
use crate::command::DrawTarget;
use crate::raster::{run_commands, GeometryError, RasterView};

verus! {

/// A drawing target that executes a command buffer in order and reports its
/// pixel size.
pub trait Surface: Sized {
    /// Whether `after` is this surface once `cmds` were executed on `before`,
    /// with `reports` the rectangle commands that were skipped.
    spec fn draws(before: Self, after: Self, cmds: Seq<DrawTarget>, reports: Seq<GeometryError>) -> bool;

    /// Executes the commands in order. The buffer itself is not changed.
    fn draw(&mut self, ctx: &[DrawTarget]) -> (r: Vec<GeometryError>)
        ensures
            Self::draws(*old(self), *final(self), ctx@, r@),
    ;

    /// The surface's size in pixels, width then height.
    fn get_client_size(&self) -> (u32, u32);
}

#[verifier::external_type_specification]
#[verifier::external_body]
pub struct ExEncodingError(png::EncodingError);

/// The PNG file that png's encoder writes for an RGBA8 image.
pub uninterp spec fn png_file(width: u32, height: u32, rgba: Seq<u8>) -> Seq<u8>;

/// Relies on png::Encoder (color type RGBA, bit depth 8) writing into a
/// Vec: write_header refuses a zero width or height, write_image_data refuses
/// a buffer that is not 4 * width * height bytes long, and these are the only
/// errors on this path, as writing into a Vec does not fail.
#[verifier::external_body]
fn encode_rgba8(width: u32, height: u32, data: &[u8]) -> (r: Result<Vec<u8>, png::EncodingError>)
    requires
        fits(width as nat, height as nat),
    ensures
        width == 0 || height == 0 || data@.len() != width * height * 4 ==> r is Err,
        width > 0 && height > 0 && data@.len() == width * height * 4 ==> r is Ok,
        r is Ok ==> r->Ok_0@ == png_file(width, height, data@),
{
    let mut out: Vec<u8> = Vec::new();
    {
        let mut encoder = png::Encoder::new(&mut out, width, height);
        encoder.set_color(png::ColorType::Rgba);
        encoder.set_depth(png::BitDepth::Eight);
        let mut writer = encoder.write_header()?;
        writer.write_image_data(data)?;
        writer.finish()?;
    }
    Ok(out)
}

/// The image format a raster surface is saved in.
#[derive(Clone, Copy, Debug, PartialEq, Eq, Structural)]
pub enum ImageType {
    Png,
    /// Kept in memory only; there is no file format to encode to.
    Unencoded,
}

/// Why a raster surface could not be turned into an image file.
#[derive(Debug)]
pub enum ImageEncodingError {
    /// The surface has no image format to encode to.
    UnsupportedFormat,
    /// The PNG encoder refused the image.
    Png(png::EncodingError),
}

/// What a raster surface holds.
pub struct ImageSurfaceView {
    pub name: Seq<char>,
    pub image_type: ImageType,
    pub canvas: RasterView,
}

/// A raster surface: a pixel canvas of the configured size, saved under
/// `name` in the configured image format.
pub struct ImageSurface {
    name: String,
    image_type: ImageType,
    canvas: PixelCanvas,
}

impl View for ImageSurface {
    type V = ImageSurfaceView;

    closed spec fn view(&self) -> ImageSurfaceView {
        ImageSurfaceView {
            name: self.name@,
            image_type: self.image_type,
            canvas: self.canvas@,
        }
    }
}

/// A zeroed canvas of the given size.
pub open spec fn blank(width: u32, height: u32) -> RasterView {
    RasterView {
        width: width as nat,
        height: height as nat,
        bytes: Seq::new((width * height * 4) as nat, |i: int| 0u8),
    }
}

impl ImageSurface {
    pub fn new(width: u32, height: u32, name: &str, image_type: ImageType) -> (r: Self)
        requires
            fits(width as nat, height as nat),
        ensures
            r@ == (ImageSurfaceView {
                name: name@,
                image_type,
                canvas: blank(width, height),
            }),
    {
        ImageSurface {
            name: name.to_owned(),
            image_type,
            canvas: PixelCanvas::new(width, height),
        }
    }

    /// Changes the size; the canvas is replaced by a zeroed one.
    pub fn resize(&mut self, width: u32, height: u32)
        requires
            fits(width as nat, height as nat),
        ensures
            final(self)@ == (ImageSurfaceView {
                canvas: blank(width, height),
                ..old(self)@
            }),
    {
        self.canvas = PixelCanvas::new(width, height);
    }

    /// The canvas bytes, row-major RGBA8.
    pub fn as_bytes(&self) -> (r: &[u8])
        ensures
            r@ == self@.canvas.bytes,
            r@.len() == self@.canvas.width * self@.canvas.height * 4,
    {
        self.canvas.as_bytes()
    }

    pub fn name(&self) -> (r: &str)
        ensures
            r@ == self@.name,
    {
        self.name.as_str()
    }

    pub fn image_type(&self) -> (r: ImageType)
        ensures
            r == self@.image_type,
    {
        self.image_type
    }

    /// The image file of the canvas in the surface's format.
    pub fn encode(&self) -> (r: Result<Vec<u8>, ImageEncodingError>)
        ensures
            encodes_to(self@, r),
    {
        match self.image_type {
            ImageType::Unencoded => Err(ImageEncodingError::UnsupportedFormat),
            ImageType::Png => match encode_rgba8(
                self.canvas.width(),
                self.canvas.height(),
                self.canvas.as_bytes(),
            ) {
                Ok(file) => Ok(file),
                Err(e) => Err(ImageEncodingError::Png(e)),
            },
        }
    }
}

/// Whether `r` is what encoding a raster surface gives: no file without a
/// format or for an empty canvas, otherwise the PNG file of the canvas, which
/// the encoder is owed to produce.
pub open spec fn encodes_to(s: ImageSurfaceView, r: Result<Vec<u8>, ImageEncodingError>) -> bool {
    &&& s.image_type == ImageType::Unencoded ==> (r matches Err(ImageEncodingError::UnsupportedFormat))
    &&& s.image_type == ImageType::Png ==> (match r {
        Ok(file) => file@ == png_file(s.canvas.width as u32, s.canvas.height as u32, s.canvas.bytes),
        Err(e) => e is Png,
    })
    &&& s.canvas.width == 0 || s.canvas.height == 0 ==> r is Err
    &&& s.image_type == ImageType::Png && s.canvas.width > 0 && s.canvas.height > 0 ==> r is Ok
}

impl ImageSurface {
    /// One frame of a raster surface: replays the commands into the canvas,
    /// in order, then encodes the result once. Returns the skipped rectangles
    /// and the image file.
    pub fn draw_image(&mut self, ctx: &[DrawTarget]) -> (r: (
        Vec<GeometryError>,
        Result<Vec<u8>, ImageEncodingError>,
    ))
        ensures
            <ImageSurface as Surface>::draws(*old(self), *final(self), ctx@, r.0@),
            encodes_to(final(self)@, r.1),
    {
        let reports = self.draw(ctx);
        let file = self.encode();
        (reports, file)
    }
}

impl Surface for ImageSurface {
    open spec fn draws(
        before: Self,
        after: Self,
        cmds: Seq<DrawTarget>,
        reports: Seq<GeometryError>,
    ) -> bool {
        &&& after@ == ImageSurfaceView { canvas: after@.canvas, ..before@ }
        &&& (after@.canvas, reports) == run_commands(before@.canvas, cmds)
        &&& after@.canvas.well_formed()
    }

    /// Replays the commands into the canvas.
    fn draw(&mut self, ctx: &[DrawTarget]) -> (r: Vec<GeometryError>) {
        self.canvas.replay(ctx)
    }

    fn get_client_size(&self) -> (r: (u32, u32))
        ensures
            r == (self@.canvas.width as u32, self@.canvas.height as u32),
    {
        (self.canvas.width(), self.canvas.height())
    }
}

} // verus!
