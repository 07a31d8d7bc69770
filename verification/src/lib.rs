//! Runtime adapter for a vector-animation engine.
//!
//! The crate models the managed side of an animation runtime: loading checks
//! for animation documents, handle-based instantiation of artboards and
//! scenes, a playback clock for linear animations, state-machine inputs and
//! events, and a renderer session that sequences abstract drawing commands
//! (paths, paints, gradients, images, meshes) into a backend scene graph
//! while maintaining a transform/clip stack.
//!
//! Geometry is carried as exact integers: points and affine coefficients are
//! plain `i64` values, and transforms derived by division (triangle mappings,
//! image centering) are exact rationals with an `i128` numerator and
//! denominator. This keeps every computation exact and lets each operation
//! state precisely what it does to the scene.

pub mod artboard;
pub mod buffer;
pub mod file;
pub mod geom;
pub mod instantiate;
pub mod linear_animation;
pub mod paint;
pub mod path;
pub mod raster;
pub mod raw_iter;
pub mod renderer;
pub mod scene;
pub mod state_machine;
