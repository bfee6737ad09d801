//! A backend-agnostic description of 2D drawing: the operations a drawing
//! surface performs, the star outline used for clipping, the scoped
//! save/restore discipline of the drawing state, and a sample scene.

mod picture;
mod render_context;
mod scope;
mod star;

pub use picture::{clip_star, is_picture_0, lemma_picture_0_state, picture_0_end_state, test_picture};
pub use render_context::{DrawOp, FillRule, PathEl, Point, PolarPathEl, PolarPoint, Rotation};
pub use scope::{
    apply, balanced, depth, initial_state, is_balanced, lemma_scope_restores, matching_restore, nested, op_depth,
    run, DrawState,
};
pub use star::{lemma_star_alternates, star, star_el, star_vertex};
