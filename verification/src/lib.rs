//! A declarative description of one small static 3-D scene: a checkered
//! ground plane, a cube resting above it, a sun-like directional light, a
//! white ambient fill light and an orthographic camera, together with the
//! engine-level settings (window size, clear colour, texture sampling,
//! asset watching) that frame it.
//!
//! The crate only describes the scene; a thin front end hands the
//! description to a rendering engine.  Every scalar the description holds
//! (lengths, angles in degrees, colour channels, light intensity) is a
//! signed count of thousandths, so the whole model stays in integers and
//! every construction step carries an exact contract.

pub mod geometry;
pub mod scene;
pub mod config;
