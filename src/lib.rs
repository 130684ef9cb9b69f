//! A small 2D drawing library: drawing operations are recorded into a
//! command buffer by an [`Azusa`] context and replayed against a surface.
//! The raster surface executes the commands on a packed RGBA8 pixel buffer.

pub mod canvas;
pub mod color;
pub mod command;
pub mod context;
pub mod laws;
pub mod native;
pub mod raster;
pub mod surface;

pub use canvas::PixelCanvas;
pub use color::{Color, Rgba};
pub use command::{DrawTarget, FontInfo, UString};
pub use context::Azusa;
pub use raster::GeometryError;
pub use surface::{ImageEncodingError, ImageSurface, ImageType, Surface};
pub use native::{select_backend, Backend, CanvasFill, UnsupportedPlatformError, WindowHandleKind, WindowSurface};
