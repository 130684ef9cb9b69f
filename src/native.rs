//! Native-window and browser-canvas surfaces: how a command buffer becomes
//! calls on an outside drawing backend.

use vstd::prelude::*;

use crate::color::{color_rgba, Color, Rgba};
use crate::command::{DrawTarget, FontInfo, UString};
use crate::raster::GeometryError;
use crate::surface::Surface;

verus! {

/// The calls a backend has received so far, oldest first. It exists for
/// the contracts only: nothing reads it at run time.
pub struct BackendLog {
    pub calls: Seq<BackendCall>,
}

/// The drawing capabilities of a native platform backend, implemented by
/// platform code. A frame is one `begin`, one primitive per recorded command
/// in order, and one `end`. Each method is one call: it adds itself, with
/// the arguments it was given, to the backend's log.
pub trait Backend {
    /// The calls this backend has received so far.
    spec fn log(&self) -> BackendLog;

    fn begin(&mut self)
        ensures
            final(self).log().calls == old(self).log().calls.push(BackendCall::Begin),
    ;

    fn clear(&mut self, color: Color)
        ensures
            final(self).log().calls == old(self).log().calls.push(BackendCall::Clear(color)),
    ;

    fn fill_rectangle(&mut self, color: Color, border_color: Color, x: u32, y: u32, width: u32, height: u32)
        ensures
            final(self).log().calls == old(self).log().calls.push(
                BackendCall::FillRectangle(color, border_color, x, y, width, height),
            ),
    ;

    fn draw_rectangle(&mut self, color: Color, thickness: u32, x: u32, y: u32, width: u32, height: u32)
        ensures
            final(self).log().calls == old(self).log().calls.push(
                BackendCall::DrawRectangle(color, thickness, x, y, width, height),
            ),
    ;

    fn draw_text(
        &mut self,
        color: Color,
        string: &UString,
        info: FontInfo,
        x: u32,
        y: u32,
        width: u32,
        height: u32,
    )
        ensures
            final(self).log().calls == old(self).log().calls.push(
                BackendCall::DrawText(color, *string, info, x, y, width, height),
            ),
    ;

    fn end(&mut self)
        ensures
            final(self).log().calls == old(self).log().calls.push(BackendCall::End),
    ;

    fn get_client_size(&self) -> (u32, u32);
}

/// One call on a backend, with its arguments.
pub enum BackendCall {
    Begin,
    Clear(Color),
    /// FillRectangle(color, border color, x, y, width, height)
    FillRectangle(Color, Color, u32, u32, u32, u32),
    /// DrawRectangle(color, thickness, x, y, width, height)
    DrawRectangle(Color, u32, u32, u32, u32, u32),
    /// DrawText(color, text, font, x, y, width, height)
    DrawText(Color, UString, FontInfo, u32, u32, u32, u32),
    End,
}

/// The backend call that executes one command.
pub open spec fn call_for(cmd: DrawTarget) -> BackendCall {
    match cmd {
        DrawTarget::Clear(c) => BackendCall::Clear(c),
        DrawTarget::FillRectangle(c, b, x, y, w, h) => BackendCall::FillRectangle(c, b, x, y, w, h),
        DrawTarget::DrawRectangle(c, x, y, t, w, h) => BackendCall::DrawRectangle(c, t, x, y, w, h),
        DrawTarget::DrawText(c, f, x, y, w, h, s) => BackendCall::DrawText(c, s, f, x, y, w, h),
    }
}

/// The calls of one frame that executes `cmds`.
pub open spec fn frame_calls(cmds: Seq<DrawTarget>) -> Seq<BackendCall> {
    seq![BackendCall::Begin] + cmds.map_values(|c: DrawTarget| call_for(c)) + seq![BackendCall::End]
}

/// A surface that draws through a native backend, one call per command,
/// with no buffering of its own.
pub struct WindowSurface<B: Backend> {
    pub backend: B,
}

impl<B: Backend> WindowSurface<B> {
    pub fn new(backend: B) -> (r: Self)
        ensures
            r.backend == backend,
    {
        WindowSurface { backend }
    }

    /// Makes the backend call for one command.
    fn dispatch(&mut self, cmd: &DrawTarget)
        ensures
            final(self).backend.log().calls == old(self).backend.log().calls.push(call_for(*cmd)),
    {
        match cmd {
            DrawTarget::Clear(c) => self.backend.clear(*c),
            DrawTarget::FillRectangle(c, b, x, y, w, h) => self.backend.fill_rectangle(*c, *b, *x, *y, *w, *h),
            DrawTarget::DrawRectangle(c, x, y, t, w, h) => self.backend.draw_rectangle(*c, *t, *x, *y, *w, *h),
            DrawTarget::DrawText(c, f, x, y, w, h, s) => self.backend.draw_text(*c, s, *f, *x, *y, *w, *h),
        }
    }
}

impl<B: Backend> Surface for WindowSurface<B> {
    open spec fn draws(
        before: Self,
        after: Self,
        cmds: Seq<DrawTarget>,
        reports: Seq<GeometryError>,
    ) -> bool {
        &&& after.backend.log().calls == before.backend.log().calls + frame_calls(cmds)
        &&& reports.len() == 0
    }

    /// Begins a frame, makes one backend call per command in order, and ends
    /// the frame.
    fn draw(&mut self, ctx: &[DrawTarget]) -> (r: Vec<GeometryError>) {
        let ghost start = self.backend.log().calls;
        self.backend.begin();
        let mut i: usize = 0;
        while i < ctx.len()
            invariant
                i <= ctx@.len(),
                self.backend.log().calls == start + seq![BackendCall::Begin] + ctx@.subrange(
                    0,
                    i as int,
                ).map_values(|c: DrawTarget| call_for(c)),
            decreases ctx@.len() - i,
        {
            self.dispatch(&ctx[i]);
            assert(ctx@.subrange(0, i + 1).map_values(|c: DrawTarget| call_for(c)) =~= ctx@.subrange(
                0,
                i as int,
            ).map_values(|c: DrawTarget| call_for(c)).push(call_for(ctx@[i as int])));
            i += 1;
        }
        self.backend.end();
        assert(ctx@.subrange(0, ctx@.len() as int) =~= ctx@);
        assert(self.backend.log().calls =~= start + frame_calls(ctx@));
        Vec::new()
    }

    fn get_client_size(&self) -> (u32, u32) {
        self.backend.get_client_size()
    }
}

/// The kinds of window handle a platform can hand over.
#[derive(Clone, Copy, Debug, PartialEq, Eq, Structural)]
pub enum WindowHandleKind {
    UiKit,
    AppKit,
    Orbital,
    Xlib,
    Xcb,
    Wayland,
    Drm,
    Gbm,
    Win32,
    WinRt,
    Web,
    AndroidNdk,
    Haiku,
    Other,
}

/// The native backends there are.
#[derive(Clone, Copy, Debug, PartialEq, Eq, Structural)]
pub enum NativeBackend {
    /// Windows GDI, for a Win32 window.
    Gdi,
}

/// A window whose handle kind no backend draws on.
#[derive(Clone, Copy, Debug, PartialEq, Eq, Structural)]
pub struct UnsupportedPlatformError {
    pub kind: WindowHandleKind,
}

/// Picks the backend for a window handle: GDI for a Win32 window; any other
/// kind is refused, naming the kind.
pub fn select_backend(kind: WindowHandleKind) -> (r: Result<NativeBackend, UnsupportedPlatformError>)
    ensures
        kind == WindowHandleKind::Win32 ==> r == Ok::<NativeBackend, UnsupportedPlatformError>(
            NativeBackend::Gdi,
        ),
        kind != WindowHandleKind::Win32 ==> r == Err::<NativeBackend, UnsupportedPlatformError>(
            UnsupportedPlatformError { kind },
        ),
{
    match kind {
        WindowHandleKind::Win32 => Ok(NativeBackend::Gdi),
        _ => Err(UnsupportedPlatformError { kind }),
    }
}

/// One fill on a browser 2D context: the fill style, then the rectangle
/// (x, y, width, height) that is added to the path and filled.
#[derive(Clone, Copy, Debug, PartialEq, Eq)]
pub struct CanvasFill {
    pub color: Rgba,
    pub x: u32,
    pub y: u32,
    pub width: u32,
    pub height: u32,
}

/// The fills for one command on a browser canvas of the given size: a clear
/// covers the canvas, a rectangle its own extent in its (fill) color, and
/// text draws nothing.
pub open spec fn canvas_fills_for(cmd: DrawTarget, width: u32, height: u32) -> Seq<CanvasFill> {
    match cmd {
        DrawTarget::Clear(c) => seq![CanvasFill { color: color_rgba(c), x: 0, y: 0, width, height }],
        DrawTarget::FillRectangle(c, _, x, y, w, h) => seq![
            CanvasFill { color: color_rgba(c), x, y, width: w, height: h },
        ],
        DrawTarget::DrawRectangle(c, x, y, _, w, h) => seq![
            CanvasFill { color: color_rgba(c), x, y, width: w, height: h },
        ],
        DrawTarget::DrawText(..) => seq![],
    }
}

/// The fills for a command sequence, in order.
pub open spec fn canvas_fills_of(cmds: Seq<DrawTarget>, width: u32, height: u32) -> Seq<CanvasFill>
    decreases cmds.len(),
{
    if cmds.len() == 0 {
        seq![]
    } else {
        canvas_fills_of(cmds.drop_last(), width, height) + canvas_fills_for(cmds.last(), width, height)
    }
}

/// Turns a command buffer into the fills a browser canvas of the given
/// size performs, in order.
pub fn canvas_fills(ctx: &[DrawTarget], width: u32, height: u32) -> (r: Vec<CanvasFill>)
    ensures
        r@ == canvas_fills_of(ctx@, width, height),
{
    let mut r: Vec<CanvasFill> = Vec::new();
    let mut i: usize = 0;
    while i < ctx.len()
        invariant
            i <= ctx@.len(),
            r@ == canvas_fills_of(ctx@.subrange(0, i as int), width, height),
        decreases ctx@.len() - i,
    {
        assert(ctx@.subrange(0, i + 1).drop_last() =~= ctx@.subrange(0, i as int));
        match &ctx[i] {
            DrawTarget::Clear(c) => r.push(CanvasFill { color: c.rgba(), x: 0, y: 0, width, height }),
            DrawTarget::FillRectangle(c, _, x, y, w, h) => r.push(
                CanvasFill { color: c.rgba(), x: *x, y: *y, width: *w, height: *h },
            ),
            DrawTarget::DrawRectangle(c, x, y, _, w, h) => r.push(
                CanvasFill { color: c.rgba(), x: *x, y: *y, width: *w, height: *h },
            ),
            DrawTarget::DrawText(..) => {},
        }
        assert(r@ =~= canvas_fills_of(ctx@.subrange(0, i + 1), width, height));
        i += 1;
    }
    assert(ctx@.subrange(0, ctx@.len() as int) =~= ctx@);
    r
}

} // verus!
