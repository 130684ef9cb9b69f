//! The drawing context: current paint state and the recorded command buffer.

use vstd::prelude::*;

use crate::color::Color;
use crate::command::{DrawTarget, FontInfo, UString};
use crate::raster::GeometryError;
use crate::surface::Surface;

verus! {

/// What a drawing context holds: the commands recorded since the last
/// clear, and the paint state that the next command will be recorded with.
pub struct ContextState {
    pub commands: Seq<DrawTarget>,
    pub color: Color,
    pub border_color: Color,
    pub x: u32,
    pub y: u32,
}

/// The operations of a drawing context that change it.
pub enum ContextOp {
    SetSourceColor(Color),
    SetBorderColor(Color),
    MoveTo(u32, u32),
    Clear,
    /// FillRectangle(width, height)
    FillRectangle(u32, u32),
    /// DrawRectangle(thickness, width, height)
    DrawRectangle(u32, u32, u32),
    /// DrawText(width, height, text, font)
    DrawText(u32, u32, UString, FontInfo),
}

/// The command that a recording operation appends, built from the paint
/// state at the moment it is recorded; `None` for the other operations.
pub open spec fn recorded(s: ContextState, op: ContextOp) -> Option<DrawTarget> {
    match op {
        ContextOp::FillRectangle(w, h) => Some(
            DrawTarget::FillRectangle(s.color, s.border_color, s.x, s.y, w, h),
        ),
        ContextOp::DrawRectangle(t, w, h) => Some(
            DrawTarget::DrawRectangle(s.color, s.x, s.y, t, w, h),
        ),
        ContextOp::DrawText(w, h, text, font) => Some(
            DrawTarget::DrawText(s.color, font, s.x, s.y, w, h, text),
        ),
        _ => None,
    }
}

/// The state after one operation.
pub open spec fn apply_op(s: ContextState, op: ContextOp) -> ContextState {
    match op {
        ContextOp::SetSourceColor(c) => ContextState { color: c, ..s },
        ContextOp::SetBorderColor(c) => ContextState { border_color: c, ..s },
        ContextOp::MoveTo(x, y) => ContextState { x, y, ..s },
        ContextOp::Clear => ContextState { commands: seq![DrawTarget::Clear(s.color)], ..s },
        _ => ContextState { commands: s.commands.push(recorded(s, op).unwrap()), ..s },
    }
}

/// The state after a sequence of operations, applied in order.
pub open spec fn apply_ops(s: ContextState, ops: Seq<ContextOp>) -> ContextState
    decreases ops.len(),
{
    if ops.len() == 0 {
        s
    } else {
        apply_op(apply_ops(s, ops.drop_last()), ops.last())
    }
}

/// A drawing context. Recording operations snapshot the current paint state
/// into the command buffer; `draw` hands the buffer to a surface.
#[derive(Clone, Debug, PartialEq)]
pub struct Azusa {
    ctx: Vec<DrawTarget>,
    ctx_color: Color,
    ctx_border_color: Color,
    ctx_x: u32,
    ctx_y: u32,
}

impl View for Azusa {
    type V = ContextState;

    closed spec fn view(&self) -> ContextState {
        ContextState {
            commands: self.ctx@,
            color: self.ctx_color,
            border_color: self.ctx_border_color,
            x: self.ctx_x,
            y: self.ctx_y,
        }
    }
}

impl Azusa {
    /// An empty context: no commands, black source and border, pen at (0, 0).
    pub fn new() -> (r: Self)
        ensures
            r@ == (ContextState {
                commands: seq![],
                color: Color::Black,
                border_color: Color::Black,
                x: 0,
                y: 0,
            }),
    {
        Azusa { ctx: Vec::new(), ctx_color: Color::Black, ctx_border_color: Color::Black, ctx_x: 0, ctx_y: 0 }
    }

    /// The commands recorded so far, in order.
    pub fn get_ctx(&self) -> (r: &[DrawTarget])
        ensures
            r@ == self@.commands,
    {
        self.ctx.as_slice()
    }

    /// Sets the color that fills and strokes are recorded with.
    pub fn set_source_color(&mut self, color: Color)
        ensures
            final(self)@ == apply_op(old(self)@, ContextOp::SetSourceColor(color)),
    {
        self.ctx_color = color;
    }

    /// Sets the border color that filled rectangles are recorded with.
    pub fn set_border_color(&mut self, color: Color)
        ensures
            final(self)@ == apply_op(old(self)@, ContextOp::SetBorderColor(color)),
    {
        self.ctx_border_color = color;
    }

    /// Starts a new frame: the buffer becomes the single command
    /// `Clear(source color)`.
    pub fn clear(&mut self)
        ensures
            final(self)@ == apply_op(old(self)@, ContextOp::Clear),
    {
        self.ctx.clear();
        self.ctx.push(DrawTarget::Clear(self.ctx_color));
        assert(self.ctx@ =~= seq![DrawTarget::Clear(self.ctx_color)]);
    }

    /// Moves the pen to (x, y).
    pub fn move_to(&mut self, x: u32, y: u32)
        ensures
            final(self)@ == apply_op(old(self)@, ContextOp::MoveTo(x, y)),
    {
        self.ctx_x = x;
        self.ctx_y = y;
    }

    /// Records a filled, bordered rectangle at the pen position.
    pub fn fill_rectangle(&mut self, width: u32, height: u32)
        ensures
            final(self)@ == apply_op(old(self)@, ContextOp::FillRectangle(width, height)),
    {
        self.ctx.push(
            DrawTarget::FillRectangle(
                self.ctx_color,
                self.ctx_border_color,
                self.ctx_x,
                self.ctx_y,
                width,
                height,
            ),
        );
    }

    /// Records a rectangle outline of the given stroke at the pen position.
    pub fn draw_rectangle(&mut self, thickness: u32, width: u32, height: u32)
        ensures
            final(self)@ == apply_op(old(self)@, ContextOp::DrawRectangle(thickness, width, height)),
    {
        self.ctx.push(
            DrawTarget::DrawRectangle(self.ctx_color, self.ctx_x, self.ctx_y, thickness, width, height),
        );
    }

    /// Records text laid out in a box at the pen position.
    pub fn draw_text(&mut self, width: u32, height: u32, string: UString, info: FontInfo)
        ensures
            final(self)@ == apply_op(old(self)@, ContextOp::DrawText(width, height, string, info)),
    {
        self.ctx.push(
            DrawTarget::DrawText(self.ctx_color, info, self.ctx_x, self.ctx_y, width, height, string),
        );
    }

    /// Hands the whole buffer, in order, to the surface; the buffer is kept.
    pub fn draw<T: Surface>(&self, surface: &mut T) -> (r: Vec<GeometryError>)
        ensures
            T::draws(*old(surface), *final(surface), self@.commands, r@),
    {
        surface.draw(self.ctx.as_slice())
    }
}

} // verus!
