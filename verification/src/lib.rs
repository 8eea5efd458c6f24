//! Procedural art out of random expression trees.
//!
//! A grammar builds a random, depth-bounded expression tree over the image
//! plane coordinates `x`, `y` and the time `t`; the tree is then either
//! interpreted numerically per pixel or translated once into an equivalent
//! GLSL expression for GPU-side evaluation.  Numeric parameters of the tree
//! (constants, circle centers, mask thresholds) are kept in fixed point:
//! an `i64` counts millionths, so `500_000` stands for `0.5`.

pub mod grammar;
pub mod operations;
pub mod codegen;
pub mod renderer;
pub mod rng;
