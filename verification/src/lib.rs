//! Retained GPU rendering core for a declarative UI toolkit: a registry that
//! dispatches per-frame draw and compute commands to their owning pipelines,
//! and the text subsystem (shared font resource, layout engine, measured text
//! artifacts) built on top of it.

pub mod command;
pub mod font;
pub mod pixel;
pub mod registry;
pub mod text;
