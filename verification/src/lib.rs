//! The state and the exact arithmetic of an interactive 3-D object viewer.
//!
//! A [`model::Model`] holds the pose of the displayed object and of the
//! camera, changed by discrete commands and watched by a redraw flag. Every
//! quantity is an integer count of its fixed increment, so that the
//! accumulators are exact; the caller turns the counts into floating-point
//! matrices when it draws.

pub mod camera;
pub mod control;
pub mod hud;
pub mod laws;
pub mod mesh;
pub mod model;
pub mod projection;
pub mod vector;
pub mod view;
