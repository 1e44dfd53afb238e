//! A grid raycaster: an 8x8 map of wall cells, rays marched through it in
//! fixed-size steps, and the projection of each hit into a shaded screen strip.
//!
//! Every length and coordinate is a fixed-point integer (`fixed::UNIT` is 1.0);
//! the angles' cosines and sines are computed by the caller and handed in.
use vstd::prelude::*;

pub mod dice;
pub mod fixed;
pub mod frame;
pub mod grid;
pub mod march;
pub mod project;
