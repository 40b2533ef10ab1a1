//! A staged entity simulation: entities carry independently stored attributes
//! (position, velocity, renderable), and small systems advance and draw them in a
//! fixed Setup, then (Render, Update) per frame, pipeline.
//!
//! Coordinates are fixed-point integers: one pixel is `SUBPIXELS` units.

mod assets;
mod attributes;
mod store;
mod world;
mod motion;
mod render;
mod schedule;
mod setup;

pub use attributes::{
    EntityId, KindSet, MissingAttribute, Position, Renderable, Velocity, SUBPIXELS,
};
pub use store::AttributeStore;
pub use world::{EntityView, World};
pub use motion::{
    advance, axis_step, lemma_update_reflects, lemma_update_translates,
    lemma_updates_extrapolate, lemma_updates_keep_kinds, motion_step, moved, moved_n, saturate,
    VIEWPORT_HEIGHT, VIEWPORT_WIDTH, X_LIMIT, Y_LIMIT,
};
pub use assets::{lemma_resolve_idempotent, lookup, lookup_below, AssetHandle, AssetTable};
pub use render::{
    draw_of, drawn_count, frame_draws, is_drawn, is_unresolved, lemma_draws_counted,
    lemma_drawn_count_by_kinds, pixel_of, DrawCommand, RenderError,
};
pub use schedule::{frames_trace, lemma_stage_order, stage_at, Schedule, Stage};
pub use setup::{
    grid_entity, lemma_grid_drawn_every_frame, random_velocities, setup, setup_with, spawn_grid,
    GRID_HEIGHT, GRID_SIZE, GRID_WIDTH, MAX_SPEED, TEXTURE_NAME,
};
