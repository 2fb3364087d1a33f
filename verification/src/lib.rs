//! An exact model of a small 3-D point-lattice renderer.
//!
//! A fixed 15x15x15 lattice of points is pushed through a per-point
//! transform chain (rotate, translate, perspective-project, map to screen
//! space) and rasterized into 2x2 pixel squares, once per animation frame.
//! All coordinate arithmetic is carried out over exact rational numbers, so
//! every transform has a precise contract; the windowing front end supplies
//! rational approximations of the two trigonometric values each frame and
//! draws the squares this library computes.

pub mod rat;
pub mod transform;
pub mod frame;
