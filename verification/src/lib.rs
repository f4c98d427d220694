//! Chunked MPM (material point method) solver support library.
//!
//! The spatial world model is a cubic lattice of fixed-size chunks of grid
//! nodes.  This crate owns the integer core of the solver: the Morton
//! spatial-index codec, the lattice data model with its phase coloring, and
//! the stencil addressing that maps a grid node of the 27-cell transfer
//! window to the chunk and node slot it lives in.

pub mod coloring;
pub mod morton;
pub mod stencil;
pub mod world;
