//! The transform and clip state of a drawing context, and how scopes opened
//! by `Save` and closed by `Restore` bring it back.

use vstd::prelude::*;
use crate::render_context::{DrawOp, FillRule, PolarPathEl, Rotation};

verus! {

/// The part of a context's state that a scope saves: the rotations composed
/// into the transform, in order, and the paths intersected into the clip.
pub struct DrawState {
    pub transforms: Seq<Rotation>,
    pub clips: Seq<(Seq<PolarPathEl>, FillRule)>,
}

/// The state at the start of drawing: identity transform, no clip.
pub open spec fn initial_state() -> DrawState {
    DrawState { transforms: Seq::empty(), clips: Seq::empty() }
}

/// One operation applied to a stack of states, whose last entry is the
/// state in force and whose other entries are the states saved by the open
/// scopes. A `Restore` with no open scope changes nothing.
pub open spec fn apply(stack: Seq<DrawState>, op: DrawOp) -> Seq<DrawState> {
    if stack.len() == 0 {
        stack
    } else {
        let top = stack.last();
        match op {
            DrawOp::Save => stack.push(top),
            DrawOp::Restore => if stack.len() > 1 {
                stack.drop_last()
            } else {
                stack
            },
            DrawOp::Rotate { rotation } => stack.update(
                stack.len() - 1,
                DrawState { transforms: top.transforms.push(rotation), clips: top.clips },
            ),
            DrawOp::Clip { outline, rule } => stack.update(
                stack.len() - 1,
                DrawState { transforms: top.transforms, clips: top.clips.push((outline@, rule)) },
            ),
            _ => stack,
        }
    }
}

/// The stack of states after applying `ops` in order.
pub open spec fn run(stack: Seq<DrawState>, ops: Seq<DrawOp>) -> Seq<DrawState>
    decreases ops.len(),
{
    if ops.len() == 0 {
        stack
    } else {
        apply(run(stack, ops.drop_last()), ops.last())
    }
}

/// How much an operation changes the number of open scopes.
pub open spec fn op_depth(op: DrawOp) -> int {
    match op {
        DrawOp::Save => 1,
        DrawOp::Restore => -1,
        _ => 0,
    }
}

/// The number of `Save`s in `ops` less the number of `Restore`s.
pub open spec fn depth(ops: Seq<DrawOp>) -> int
    decreases ops.len(),
{
    if ops.len() == 0 {
        0
    } else {
        depth(ops.drop_last()) + op_depth(ops.last())
    }
}

/// Every `Restore` in `ops` closes a scope that `ops` opened.
pub open spec fn nested(ops: Seq<DrawOp>) -> bool {
    forall|i: int| 0 <= i <= ops.len() ==> depth(#[trigger] ops.take(i)) >= 0
}

/// Every scope that `ops` opens is closed again within `ops`, and no other.
pub open spec fn balanced(ops: Seq<DrawOp>) -> bool {
    nested(ops) && depth(ops) == 0
}

proof fn lemma_nested_prefix(ops: Seq<DrawOp>)
    requires
        ops.len() > 0,
        nested(ops),
    ensures
        nested(ops.drop_last()),
        depth(ops) >= 0,
{
    let p = ops.drop_last();
    assert forall|i: int| 0 <= i <= p.len() implies depth(#[trigger] p.take(i)) >= 0 by {
        assert(p.take(i) =~= ops.take(i));
    }
    assert(ops.take(ops.len() as int) =~= ops);
}

/// Running nested operations keeps every state below the one in force, and
/// leaves as many more states as scopes remain open.
proof fn lemma_run_nested(stack: Seq<DrawState>, ops: Seq<DrawOp>)
    requires
        stack.len() >= 1,
        nested(ops),
    ensures
        run(stack, ops).len() == stack.len() + depth(ops),
        run(stack, ops).take(stack.len() - 1) == stack.take(stack.len() - 1),
    decreases ops.len(),
{
    if ops.len() > 0 {
        lemma_nested_prefix(ops);
        lemma_run_nested(stack, ops.drop_last());
        let before = run(stack, ops.drop_last());
        let after = run(stack, ops);
        assert(after == apply(before, ops.last()));
        assert(after.take(stack.len() - 1) =~= stack.take(stack.len() - 1)) by {
            assert(before.take(stack.len() - 1) =~= stack.take(stack.len() - 1));
            assert forall|j: int| 0 <= j < stack.len() - 1 implies after[j] == before[j] by {}
        }
    }
}

/// A scope restores the transform and clip exactly: saving, then running any
/// operations that close every scope they open, then restoring, leaves the
/// state in force, and every saved state, as they were before the save,
/// whatever those operations drew, transformed or clipped.
pub proof fn lemma_scope_restores(stack: Seq<DrawState>, inner: Seq<DrawOp>)
    requires
        stack.len() >= 1,
        balanced(inner),
    ensures
        run(stack, seq![DrawOp::Save] + inner + seq![DrawOp::Restore]) == stack,
{
    let saved = seq![DrawOp::Save];
    let opened = saved + inner;
    let all = opened + seq![DrawOp::Restore];
    assert(all.drop_last() =~= opened);
    assert(run(stack, saved) == apply(stack, DrawOp::Save)) by {
        assert(saved.drop_last() =~= Seq::<DrawOp>::empty());
        assert(run(stack, saved.drop_last()) == stack);
    }
    let pushed = stack.push(stack.last());
    assert(run(stack, opened) == run(pushed, inner)) by {
        lemma_run_append(stack, saved, inner);
    }
    lemma_run_nested(pushed, inner);
    assert(pushed.take(stack.len() as int) =~= stack);
    assert(run(stack, all) =~= stack);
}

/// Running two sequences one after the other is running their concatenation.
proof fn lemma_run_append(stack: Seq<DrawState>, a: Seq<DrawOp>, b: Seq<DrawOp>)
    ensures
        run(stack, a + b) == run(run(stack, a), b),
    decreases b.len(),
{
    if b.len() == 0 {
        assert(a + b =~= a);
    } else {
        lemma_run_append(stack, a, b.drop_last());
        assert((a + b).drop_last() =~= a + b.drop_last());
        assert((a + b).last() == b.last());
    }
}

pub(crate) proof fn lemma_depth_step(ops: Seq<DrawOp>, i: int)
    requires
        0 <= i < ops.len(),
    ensures
        depth(ops.take(i + 1)) == depth(ops.take(i)) + op_depth(ops[i]),
{
    assert(ops.take(i + 1).drop_last() =~= ops.take(i));
}

/// Whether every scope that `ops` opens is closed within `ops`, and no
/// `Restore` closes a scope opened before it.
pub fn is_balanced(ops: &Vec<DrawOp>) -> (r: bool)
    ensures
        r == balanced(ops@),
{
    let mut open: usize = 0;
    let mut i: usize = 0;
    while i < ops.len()
        invariant
            i <= ops@.len(),
            open <= i,
            open == depth(ops@.take(i as int)),
            nested(ops@.take(i as int)),
        decreases ops@.len() - i,
    {
        proof {
            lemma_depth_step(ops@, i as int);
        }
        match &ops[i] {
            DrawOp::Save => {
                open = open + 1;
            },
            DrawOp::Restore => {
                if open == 0 {
                    assert(depth(ops@.take(i + 1)) < 0);
                    return false;
                }
                open = open - 1;
            },
            _ => {},
        }
        let ghost next = ops@.take(i + 1);
        assert forall|j: int| 0 <= j <= next.len() implies depth(#[trigger] next.take(j)) >= 0 by {
            if j <= i {
                assert(next.take(j) =~= ops@.take(i as int).take(j));
            } else {
                assert(next.take(j) =~= next);
            }
        }
        i = i + 1;
    }
    assert(ops@.take(i as int) =~= ops@);
    open == 0
}

/// The index of the `Restore` that closes the scope opened by the `Save` at
/// `start`: the first `j` after `start` at which the operations from `start`
/// through `j` have closed every scope they opened. `None` where that scope
/// is never closed.
pub fn matching_restore(ops: &Vec<DrawOp>, start: usize) -> (r: Option<usize>)
    requires
        start < ops@.len(),
        ops@[start as int] == DrawOp::Save,
    ensures
        match r {
            Some(j) => {
                &&& start < j < ops@.len()
                &&& depth(ops@.subrange(start as int, j + 1)) == 0
                &&& ops@[j as int] == DrawOp::Restore
                &&& forall|m: int| start <= m < j ==> depth(#[trigger] ops@.subrange(start as int, m + 1)) > 0
            },
            None => forall|m: int|
                start <= m < ops@.len() ==> depth(#[trigger] ops@.subrange(start as int, m + 1)) > 0,
        },
{
    let ghost first = ops@.subrange(start as int, start + 1);
    assert(first.drop_last() =~= Seq::<DrawOp>::empty());
    assert(first.last() == ops@[start as int]);
    assert(depth(first) == depth(Seq::<DrawOp>::empty()) + op_depth(DrawOp::Save));
    let len = ops.len();
    let mut open: usize = 1;
    let mut k: usize = start + 1;
    while k < len
        invariant
            len == ops@.len(),
            start < k <= ops@.len(),
            1 <= open <= k - start,
            open == depth(ops@.subrange(start as int, k as int)),
            forall|m: int| start <= m < k ==> depth(#[trigger] ops@.subrange(start as int, m + 1)) > 0,
        decreases ops@.len() - k,
    {
        assert(ops@.subrange(start as int, k + 1).drop_last() =~= ops@.subrange(start as int, k as int));
        match &ops[k] {
            DrawOp::Save => {
                open = open + 1;
            },
            DrawOp::Restore => {
                if open == 1 {
                    return Some(k);
                }
                open = open - 1;
            },
            _ => {},
        }
        k = k + 1;
    }
    None
}

} // verus!
