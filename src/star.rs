//! The outline of a star polygon.

use vstd::prelude::*;
use crate::render_context::{Point, PolarPathEl, PolarPoint};

verus! {

/// Vertex `i` of the star: even vertices lie on the outer circle, odd ones on
/// the inner circle, and vertex `i` is at the angle `i * pi / n`.
pub open spec fn star_vertex(center: Point, inner: u32, outer: u32, n: usize, i: int) -> PolarPoint {
    PolarPoint {
        center,
        radius: if i % 2 == 0 { outer } else { inner },
        step: i as usize,
        divisions: n,
    }
}

/// Element `i` of the star outline with `n` points: a move to vertex 0, lines
/// to vertices 1 to `2n - 1`, then a close.
pub open spec fn star_el(center: Point, inner: u32, outer: u32, n: usize, i: int) -> PolarPathEl {
    if i == 2 * n {
        PolarPathEl::ClosePath
    } else if i == 0 {
        PolarPathEl::MoveTo(star_vertex(center, inner, outer, n, i))
    } else {
        PolarPathEl::LineTo(star_vertex(center, inner, outer, n, i))
    }
}

/// Consecutive vertices of a star lie one on each circle, `pi / n` radians
/// apart, and the outline is a move, lines, then a close.
pub proof fn lemma_star_alternates(center: Point, inner: u32, outer: u32, n: usize, i: int)
    requires
        0 <= i,
        i + 1 < 2 * n,
        n < usize::MAX / 2,
    ensures
        ({
            let a = star_vertex(center, inner, outer, n, i);
            let b = star_vertex(center, inner, outer, n, i + 1);
            &&& (a.radius == outer && b.radius == inner) || (a.radius == inner && b.radius == outer)
            &&& b.step == a.step + 1
            &&& a.divisions == n && b.divisions == n
            &&& a.center == center && b.center == center
        }),
        star_el(center, inner, outer, n, 0) == PolarPathEl::MoveTo(star_vertex(center, inner, outer, n, 0)),
        star_el(center, inner, outer, n, i + 1) == PolarPathEl::LineTo(star_vertex(center, inner, outer, n, i + 1)),
        star_el(center, inner, outer, n, 2 * n) == PolarPathEl::ClosePath,
{
}

/// The closed outline of a star with `n` points around `center`, alternating
/// between the outer and the inner radius, one vertex every `pi / n` radians.
/// A star with no points has an empty outline.
pub fn star(center: Point, inner: u32, outer: u32, n: usize) -> (r: Vec<PolarPathEl>)
    requires
        n < usize::MAX / 2,
    ensures
        n == 0 ==> r@.len() == 0,
        n >= 1 ==> r@.len() == 2 * n + 1,
        forall|i: int| 0 <= i < r@.len() ==> #[trigger] r@[i] == star_el(center, inner, outer, n, i),
{
    let mut result: Vec<PolarPathEl> = Vec::new();
    if n == 0 {
        return result;
    }
    let mut i: usize = 0;
    while i < n
        invariant
            i <= n,
            n < usize::MAX / 2,
            result@.len() == 2 * i,
            forall|j: int| 0 <= j < 2 * i ==> #[trigger] result@[j] == star_el(center, inner, outer, n, j),
        decreases n - i,
    {
        let outer_pt = PolarPoint { center, radius: outer, step: 2 * i, divisions: n };
        if i == 0 {
            result.push(PolarPathEl::MoveTo(outer_pt));
        } else {
            result.push(PolarPathEl::LineTo(outer_pt));
        }
        let inner_pt = PolarPoint { center, radius: inner, step: 2 * i + 1, divisions: n };
        result.push(PolarPathEl::LineTo(inner_pt));
        i = i + 1;
    }
    result.push(PolarPathEl::ClosePath);
    result
}

} // verus!
