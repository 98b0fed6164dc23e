//! A verified core for a small real-time 3D rendering engine.
//!
//! The library models the engine's scene-composition and rendering state:
//! transforms with cached model matrices, a first-person camera with a
//! mouse-drag rotation protocol, an input aggregator, a scene graph of game
//! objects with components, the mesh/material data model, a resource loader
//! that assembles models from parsed geometry, and the renderer's surface
//! and draw-list state machine.
//!
//! Continuous quantities (positions, angles, scales) are carried as
//! fixed-point integers so that every state transition has an exact
//! contract; GPU-bound vertex attributes are carried as raw 32-bit float
//! bit patterns, which the core stores and arranges but never interprets.
//! Window, GPU and file-system collaborators live outside the library and
//! communicate with it through plain values and command lists.

pub mod fixed;
pub mod math;
pub mod mesh;
pub mod model;
pub mod game_object;
pub mod input;
pub mod camera;
pub mod light;
pub mod loader;
pub mod renderer;
pub mod window;

pub use fixed::FX_ONE;
