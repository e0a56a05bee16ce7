//! An interactive visualizer's core for algebraic surfaces in three and four
//! dimensions: closed-form and iterative projection operators, membership
//! tests, a fixed binary parameter layout for the rendering backend, and the
//! generation and splicing of equivalent shader-language fragments.
//!
//! Every binary32 scalar is carried as its raw bit pattern (`u32`): the
//! structure of each computation is verified over the bits, while the
//! arithmetic itself runs on a soft-float implementation of the IEEE
//! operations behind a small set of trusted wrappers.

pub mod binding_structs;
pub mod encoding;
pub mod fbits;
pub mod laws;
pub mod manifold;
pub mod vecs;
