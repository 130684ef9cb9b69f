//! Laws of the drawing context and of the raster model, each stated over the
//! spec functions that the executable contracts are written in.

use vstd::arithmetic::div_mod::lemma_fundamental_div_mod_converse;
use vstd::prelude::*;

use crate::color::{color_rgba, Color, Rgba};
use crate::command::DrawTarget;
use crate::context::{apply_op, apply_ops, recorded, ContextOp, ContextState};
use crate::raster::{
    check_rect, cleared, filled, in_outline, in_rect, outlined, pixel_at, pixel_x, pixel_y,
    run_command, run_commands, GeometryError, RasterView,
};

verus! {

/// The commands that a sequence of operations records, in order, each
/// built from the paint state in force when its operation ran.
pub open spec fn recorded_by(s: ContextState, ops: Seq<ContextOp>) -> Seq<DrawTarget>
    decreases ops.len(),
{
    if ops.len() == 0 {
        seq![]
    } else {
        let before = apply_ops(s, ops.drop_last());
        recorded_by(s, ops.drop_last()) + match recorded(before, ops.last()) {
            Some(cmd) => seq![cmd],
            None => seq![],
        }
    }
}

/// Without a clear in between, the buffer ends up holding the commands it
/// held, followed by exactly the commands recorded, in call order, each
/// carrying the paint state of its own moment; and what was in the buffer
/// after any prefix of the operations is never altered by the later ones.
pub proof fn lemma_recording_keeps_order(s: ContextState, ops: Seq<ContextOp>)
    requires
        forall|j: int| 0 <= j < ops.len() ==> !(#[trigger] ops[j] is Clear),
    ensures
        apply_ops(s, ops).commands == s.commands + recorded_by(s, ops),
        forall|k: int|
            0 <= k <= ops.len() ==> (#[trigger] apply_ops(s, ops.take(k))).commands.is_prefix_of(
                apply_ops(s, ops).commands,
            ),
    decreases ops.len(),
{
    if ops.len() > 0 {
        let rest = ops.drop_last();
        lemma_recording_keeps_order(s, rest);
        assert(apply_ops(s, ops).commands =~= s.commands + recorded_by(s, ops));
        let all = apply_ops(s, ops).commands;
        let prev = apply_ops(s, rest).commands;
        assert(!(ops[ops.len() - 1] is Clear));
        assert(prev.is_prefix_of(all));
        assert forall|k: int| 0 <= k <= ops.len() implies (#[trigger] apply_ops(
            s,
            ops.take(k),
        )).commands.is_prefix_of(all) by {
            if k == ops.len() {
                assert(ops.take(k) =~= ops);
            } else {
                assert(ops.take(k) =~= rest.take(k));
                assert(apply_ops(s, rest.take(k)).commands.is_prefix_of(prev));
            }
        }
    } else {
        assert(ops.take(0) =~= ops);
        assert(s.commands + recorded_by(s, ops) =~= s.commands);
    }
}

/// A clear leaves exactly one command in the buffer: a clear to the current
/// source color.
pub proof fn lemma_clear_leaves_one(s: ContextState)
    ensures
        apply_op(s, ContextOp::Clear).commands.len() == 1,
        apply_op(s, ContextOp::Clear).commands[0] == DrawTarget::Clear(s.color),
{
}

/// Byte `k` of pixel (px, py) sits at offset (py * width + px) * 4 + k,
/// inside the buffer.
pub proof fn lemma_pixel_byte(width: nat, height: nat, px: int, py: int, k: int)
    requires
        0 <= px < width,
        0 <= py < height,
        0 <= k < 4,
    ensures
        ({
            let i = (py * width + px) * 4 + k;
            &&& 0 <= i < width * height * 4
            &&& pixel_x(i, width) == px
            &&& pixel_y(i, width) == py
            &&& i % 4 == k
        }),
{
    let p = py * width + px;
    assert(0 <= p < width * height) by (nonlinear_arith)
        requires
            p == py * width + px,
            0 <= px < width,
            0 <= py < height,
    ;
    let i = p * 4 + k;
    lemma_fundamental_div_mod_converse(i, 4, p, k);
    lemma_fundamental_div_mod_converse(p, width as int, py, px);
    assert(i < width * height * 4) by (nonlinear_arith)
        requires
            i == p * 4 + k,
            p < width * height,
            k < 4,
    ;
}

/// Replaying a lone clear paints every pixel of the canvas in the clear's
/// color, and reports nothing.
pub proof fn lemma_clear_paints_every_pixel(v: RasterView, c: Color)
    requires
        v.well_formed(),
    ensures
        run_commands(v, seq![DrawTarget::Clear(c)]).1 == Seq::<GeometryError>::empty(),
        run_commands(v, seq![DrawTarget::Clear(c)]).0.well_formed(),
        forall|px: int, py: int|
            0 <= px < v.width && 0 <= py < v.height ==> #[trigger] pixel_at(
                run_commands(v, seq![DrawTarget::Clear(c)]).0,
                px,
                py,
            ) == color_rgba(c),
{
    let cmds = seq![DrawTarget::Clear(c)];
    reveal_with_fuel(run_commands, 2);
    assert(cmds.drop_last() =~= Seq::<DrawTarget>::empty());
    let after = run_commands(v, cmds).0;
    assert(after == cleared(v, color_rgba(c)));
    assert(run_commands(v, cmds).1 =~= Seq::<GeometryError>::empty());
    assert forall|px: int, py: int| 0 <= px < v.width && 0 <= py < v.height implies #[trigger] pixel_at(
        after,
        px,
        py,
    ) == color_rgba(c) by {
        lemma_pixel_byte(v.width, v.height, px, py, 0);
        lemma_pixel_byte(v.width, v.height, px, py, 1);
        lemma_pixel_byte(v.width, v.height, px, py, 2);
        lemma_pixel_byte(v.width, v.height, px, py, 3);
    }
}

/// A buffer that starts with a clear gives the same pixels and the same
/// reports on any two canvases of the same size, whatever they held before.
pub proof fn lemma_frame_ignores_prior_contents(v1: RasterView, v2: RasterView, cmds: Seq<DrawTarget>)
    requires
        v1.width == v2.width,
        v1.height == v2.height,
        cmds.len() > 0,
        cmds[0] is Clear,
    ensures
        run_commands(v1, cmds) == run_commands(v2, cmds),
    decreases cmds.len(),
{
    if cmds.len() == 1 {
        reveal_with_fuel(run_commands, 2);
        assert(cmds.drop_last() =~= Seq::<DrawTarget>::empty());
        let c = color_rgba(cmds[0]->Clear_0);
        assert(cleared(v1, c).bytes =~= cleared(v2, c).bytes);
    } else {
        lemma_frame_ignores_prior_contents(v1, v2, cmds.drop_last());
    }
}

/// Replaying the same buffer on two canvases of the same size, freshly
/// cleared to the same color, gives byte-identical results.
pub proof fn lemma_replay_is_repeatable(v1: RasterView, v2: RasterView, c: Color, cmds: Seq<DrawTarget>)
    requires
        v1.width == v2.width,
        v1.height == v2.height,
    ensures
        run_commands(cleared(v1, color_rgba(c)), cmds) == run_commands(cleared(v2, color_rgba(c)), cmds),
{
    assert(cleared(v1, color_rgba(c)).bytes =~= cleared(v2, color_rgba(c)).bytes);
}

/// A filled rectangle changes each on-canvas pixel inside it to `c`, and
/// no other.
pub proof fn lemma_pixel_of_filled(v: RasterView, x: int, y: int, w: int, h: int, c: Rgba, px: int, py: int)
    requires
        v.well_formed(),
        0 <= px < v.width,
        0 <= py < v.height,
    ensures
        pixel_at(filled(v, x, y, w, h, c), px, py) == if in_rect(px, py, x, y, w, h) {
            c
        } else {
            pixel_at(v, px, py)
        },
{
    lemma_pixel_byte(v.width, v.height, px, py, 0);
    lemma_pixel_byte(v.width, v.height, px, py, 1);
    lemma_pixel_byte(v.width, v.height, px, py, 2);
    lemma_pixel_byte(v.width, v.height, px, py, 3);
}

/// An outline changes each on-canvas pixel on it to `c`, and no other.
pub proof fn lemma_pixel_of_outlined(
    v: RasterView,
    x: int,
    y: int,
    w: int,
    h: int,
    t: int,
    c: Rgba,
    px: int,
    py: int,
)
    requires
        v.well_formed(),
        0 <= px < v.width,
        0 <= py < v.height,
    ensures
        pixel_at(outlined(v, x, y, w, h, t, c), px, py) == if in_outline(px, py, x, y, w, h, t) {
            c
        } else {
            pixel_at(v, px, py)
        },
{
    lemma_pixel_byte(v.width, v.height, px, py, 0);
    lemma_pixel_byte(v.width, v.height, px, py, 1);
    lemma_pixel_byte(v.width, v.height, px, py, 2);
    lemma_pixel_byte(v.width, v.height, px, py, 3);
}

/// A filled rectangle that fits in 32-bit coordinates and starts on the
/// canvas ends with its one-pixel border in the border color and its
/// interior in the fill color: the fill never covers the border. Pixels
/// outside it keep their color.
pub proof fn lemma_border_then_fill(
    v: RasterView,
    fill: Color,
    border: Color,
    x: u32,
    y: u32,
    w: u32,
    h: u32,
)
    requires
        v.well_formed(),
        check_rect(v.width, v.height, x, y, w, h) is Ok,
    ensures
        forall|px: int, py: int|
            0 <= px < v.width && 0 <= py < v.height ==> {
                &&& in_outline(px, py, x as int, y as int, w as int, h as int, 1) ==> #[trigger] pixel_at(
                    run_command(v, DrawTarget::FillRectangle(fill, border, x, y, w, h)).0,
                    px,
                    py,
                ) == color_rgba(border)
                &&& in_rect(px, py, x + 1, y + 1, w - 2, h - 2) ==> pixel_at(run_command(v, DrawTarget::FillRectangle(fill, border, x, y, w, h)).0, px, py)
                    == color_rgba(fill)
                &&& !in_rect(px, py, x as int, y as int, w as int, h as int) ==> pixel_at(
                    run_command(v, DrawTarget::FillRectangle(fill, border, x, y, w, h)).0,
                    px,
                    py,
                ) == pixel_at(v, px, py)
            },
{
    let b = outlined(v, x as int, y as int, w as int, h as int, 1, color_rgba(border));
    let (ix, iy) = ((x + 1) as u32, (y + 1) as u32);
    let (iw, ih) = (crate::raster::inner_extent(w), crate::raster::inner_extent(h));
    let after = run_command(v, DrawTarget::FillRectangle(fill, border, x, y, w, h)).0;
    assert forall|px: int, py: int| 0 <= px < v.width && 0 <= py < v.height implies {
        &&& in_outline(px, py, x as int, y as int, w as int, h as int, 1) ==> #[trigger] pixel_at(
            after,
            px,
            py,
        ) == color_rgba(border)
        &&& in_rect(px, py, x + 1, y + 1, w - 2, h - 2) ==> pixel_at(after, px, py) == color_rgba(
            fill,
        )
        &&& !in_rect(px, py, x as int, y as int, w as int, h as int) ==> pixel_at(after, px, py)
            == pixel_at(v, px, py)
    } by {
        lemma_pixel_of_outlined(v, x as int, y as int, w as int, h as int, 1, color_rgba(border), px, py);
        if check_rect(v.width, v.height, ix, iy, iw, ih) is Ok {
            lemma_pixel_of_filled(b, ix as int, iy as int, iw as int, ih as int, color_rgba(fill), px, py);
        }
    }
}

/// A filled rectangle that fits in 32-bit coordinates and whose interior
/// starts on the canvas reports nothing, even where it runs past the canvas
/// edges: only the part on the canvas is written, the buffer keeps its size,
/// and every pixel outside the rectangle keeps its color.
pub proof fn lemma_clipped_fill(
    v: RasterView,
    fill: Color,
    border: Color,
    x: u32,
    y: u32,
    w: u32,
    h: u32,
)
    requires
        v.well_formed(),
        x + 1 < v.width,
        y + 1 < v.height,
        w >= 3,
        h >= 3,
        x + w <= u32::MAX,
        y + h <= u32::MAX,
    ensures
        run_command(v, DrawTarget::FillRectangle(fill, border, x, y, w, h)).1.len() == 0,
        run_command(v, DrawTarget::FillRectangle(fill, border, x, y, w, h)).0.width == v.width,
        run_command(v, DrawTarget::FillRectangle(fill, border, x, y, w, h)).0.height == v.height,
        run_command(v, DrawTarget::FillRectangle(fill, border, x, y, w, h)).0.well_formed(),
        forall|px: int, py: int|
            0 <= px < v.width && 0 <= py < v.height && !in_rect(
                px,
                py,
                x as int,
                y as int,
                w as int,
                h as int,
            ) ==> #[trigger] pixel_at(run_command(v, DrawTarget::FillRectangle(fill, border, x, y, w, h)).0, px, py) == pixel_at(v, px, py),
{
    lemma_border_then_fill(v, fill, border, x, y, w, h);
}

} // verus!
