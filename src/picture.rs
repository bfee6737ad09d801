//! A sample scene that exercises every kind of drawing operation.

use vstd::prelude::*;
use crate::render_context::{DrawOp, FillRule, PathEl, Point, PolarPathEl, Rotation};
use crate::scope::{apply, balanced, depth, initial_state, lemma_depth_step, run, DrawState};
use crate::star::{star, star_el};

verus! {

/// The star that clips the last text of the sample scene: 24 points around
/// (90, 45), inner radius 10, outer radius 30.
pub open spec fn clip_star() -> Seq<PolarPathEl> {
    Seq::new(49, |i: int| star_el(Point { x: 90, y: 45 }, 10, 30, 24, i))
}

/// The operations of sample scene 0, in order: clear; stroke a line; stroke a
/// quadratic curve; fill a cubic curve; build a font and a layout, draw the
/// text and underline it; draw it again rotated, inside a scope; clip to a
/// star; build a second layout and draw it.
pub open spec fn is_picture_0(ops: Seq<DrawOp>) -> bool {
    &&& ops.len() == 19
    &&& ops[0] == DrawOp::Clear { rgb: 0xFF_FF_FF }
    &&& ops[1] == DrawOp::SolidBrush { rgba: 0x00_00_80_FF }
    &&& ops[2] == DrawOp::StrokeLine { p0: Point { x: 10, y: 10 }, p1: Point { x: 100, y: 50 }, width: 1 }
    &&& ops[3] == DrawOp::SolidBrush { rgba: 0x00_80_00_FF }
    &&& match ops[4] {
        DrawOp::StrokePath { path, width } => width == 1 && path@ == seq![
            PathEl::MoveTo(Point { x: 50, y: 10 }),
            PathEl::QuadTo(Point { x: 60, y: 50 }, Point { x: 100, y: 90 }),
        ],
        _ => false,
    }
    &&& ops[5] == DrawOp::SolidBrush { rgba: 0x00_00_80_C0 }
    &&& match ops[6] {
        DrawOp::FillPath { path, rule } => rule == FillRule::NonZero && path@ == seq![
            PathEl::MoveTo(Point { x: 10, y: 20 }),
            PathEl::CurveTo(Point { x: 10, y: 80 }, Point { x: 100, y: 80 }, Point { x: 100, y: 60 }),
        ],
        _ => false,
    }
    &&& ops[7] == DrawOp::NewFont { name: "Segoe UI", size: 12 }
    &&& ops[8] == DrawOp::NewTextLayout { text: "Hello piet!" }
    &&& ops[9] == DrawOp::SolidBrush { rgba: 0x80_00_00_C0 }
    &&& ops[10] == DrawOp::DrawText { origin: Point { x: 80, y: 10 } }
    &&& ops[11] == DrawOp::StrokeUnderline { start: Point { x: 80, y: 12 }, width: 1 }
    &&& ops[12] == DrawOp::Save
    &&& ops[13] == DrawOp::Rotate { rotation: Rotation { num: 1, den: 10 } }
    &&& ops[14] == DrawOp::DrawText { origin: Point { x: 80, y: 10 } }
    &&& ops[15] == DrawOp::Restore
    &&& match ops[16] {
        DrawOp::Clip { outline, rule } => rule == FillRule::NonZero && outline@ == clip_star(),
        _ => false,
    }
    &&& ops[17] == DrawOp::NewTextLayout { text: "Clipped text" }
    &&& ops[18] == DrawOp::DrawText { origin: Point { x: 80, y: 50 } }
}

fn picture_0() -> (ops: Vec<DrawOp>)
    ensures
        is_picture_0(ops@),
{
    let mut ops: Vec<DrawOp> = Vec::new();
    ops.push(DrawOp::Clear { rgb: 0xFF_FF_FF });
    ops.push(DrawOp::SolidBrush { rgba: 0x00_00_80_FF });
    ops.push(DrawOp::StrokeLine { p0: Point { x: 10, y: 10 }, p1: Point { x: 100, y: 50 }, width: 1 });

    let mut path: Vec<PathEl> = Vec::new();
    path.push(PathEl::MoveTo(Point { x: 50, y: 10 }));
    path.push(PathEl::QuadTo(Point { x: 60, y: 50 }, Point { x: 100, y: 90 }));
    assert(path@ =~= seq![
        PathEl::MoveTo(Point { x: 50, y: 10 }),
        PathEl::QuadTo(Point { x: 60, y: 50 }, Point { x: 100, y: 90 }),
    ]);
    ops.push(DrawOp::SolidBrush { rgba: 0x00_80_00_FF });
    ops.push(DrawOp::StrokePath { path, width: 1 });

    let mut path: Vec<PathEl> = Vec::new();
    path.push(PathEl::MoveTo(Point { x: 10, y: 20 }));
    path.push(PathEl::CurveTo(Point { x: 10, y: 80 }, Point { x: 100, y: 80 }, Point { x: 100, y: 60 }));
    assert(path@ =~= seq![
        PathEl::MoveTo(Point { x: 10, y: 20 }),
        PathEl::CurveTo(Point { x: 10, y: 80 }, Point { x: 100, y: 80 }, Point { x: 100, y: 60 }),
    ]);
    ops.push(DrawOp::SolidBrush { rgba: 0x00_00_80_C0 });
    ops.push(DrawOp::FillPath { path, rule: FillRule::NonZero });

    ops.push(DrawOp::NewFont { name: "Segoe UI", size: 12 });
    ops.push(DrawOp::NewTextLayout { text: "Hello piet!" });
    ops.push(DrawOp::SolidBrush { rgba: 0x80_00_00_C0 });
    ops.push(DrawOp::DrawText { origin: Point { x: 80, y: 10 } });
    ops.push(DrawOp::StrokeUnderline { start: Point { x: 80, y: 12 }, width: 1 });

    ops.push(DrawOp::Save);
    ops.push(DrawOp::Rotate { rotation: Rotation { num: 1, den: 10 } });
    ops.push(DrawOp::DrawText { origin: Point { x: 80, y: 10 } });
    ops.push(DrawOp::Restore);

    let outline = star(Point { x: 90, y: 45 }, 10, 30, 24);
    assert(outline@ =~= clip_star());
    ops.push(DrawOp::Clip { outline, rule: FillRule::NonZero });
    ops.push(DrawOp::NewTextLayout { text: "Clipped text" });
    ops.push(DrawOp::DrawText { origin: Point { x: 80, y: 50 } });
    ops
}

/// The state in force after scene 0: the rotation was undone when its
/// scope closed, and the star clip remains.
pub open spec fn picture_0_end_state() -> DrawState {
    DrawState { transforms: Seq::empty(), clips: seq![(clip_star(), FillRule::NonZero)] }
}

/// The stack of states after the first `k` operations of scene 0.
spec fn picture_0_stack(k: int) -> Seq<DrawState> {
    let rotated = DrawState {
        transforms: seq![Rotation { num: 1, den: 10 }],
        clips: Seq::empty(),
    };
    if k <= 12 {
        seq![initial_state()]
    } else if k == 13 {
        seq![initial_state(), initial_state()]
    } else if k <= 15 {
        seq![initial_state(), rotated]
    } else if k == 16 {
        seq![initial_state()]
    } else {
        seq![picture_0_end_state()]
    }
}

proof fn lemma_picture_0_prefix(ops: Seq<DrawOp>, k: int)
    requires
        is_picture_0(ops),
        0 <= k <= 19,
    ensures
        depth(ops.take(k)) == if 13 <= k <= 15 { 1int } else { 0int },
        run(seq![initial_state()], ops.take(k)) == picture_0_stack(k),
    decreases k,
{
    if k > 0 {
        lemma_picture_0_prefix(ops, k - 1);
        lemma_depth_step(ops, k - 1);
        assert(ops.take(k).drop_last() =~= ops.take(k - 1));
        let before = picture_0_stack(k - 1);
        let after = run(seq![initial_state()], ops.take(k));
        assert(after == apply(before, ops[k - 1]));
        assert(after =~= picture_0_stack(k));
    } else {
        assert(ops.take(0) =~= Seq::<DrawOp>::empty());
    }
}

/// Scene 0 closes every scope it opens, and leaves the identity transform
/// with the star as the only clip.
pub proof fn lemma_picture_0_state(ops: Seq<DrawOp>)
    requires
        is_picture_0(ops),
    ensures
        balanced(ops),
        run(seq![initial_state()], ops) == seq![picture_0_end_state()],
{
    assert forall|k: int| 0 <= k <= ops.len() implies depth(#[trigger] ops.take(k)) >= 0 by {
        lemma_picture_0_prefix(ops, k);
    }
    lemma_picture_0_prefix(ops, 19);
    assert(ops.take(19) =~= ops);
}

/// The operations of the sample scene numbered `number`, or `None` where no
/// scene has that number. Only scene 0 exists.
pub fn test_picture(number: usize) -> (r: Option<Vec<DrawOp>>)
    ensures
        r is Some <==> number == 0,
        r matches Some(ops) ==> is_picture_0(ops@),
        r matches Some(ops) ==> balanced(ops@),
        r matches Some(ops) ==> run(seq![initial_state()], ops@) == seq![picture_0_end_state()],
{
    if number == 0 {
        let ops = picture_0();
        proof {
            lemma_picture_0_state(ops@);
        }
        Some(ops)
    } else {
        None
    }
}

} // verus!
