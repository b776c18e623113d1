//! Discrete core of a lane-parallel simplex-noise engine.
//!
//! Gradient noise over a 2-D or 3-D lattice is driven by a small amount of
//! exact integer logic: a chained permutation table that hashes lattice
//! coordinates to gradient indices, a fixed bit-to-direction mapping that
//! selects a gradient vector from the low bits of such an index, the
//! comparison-driven choice of simplex corner traversal order, and the
//! row-major bookkeeping that tiles a requested grid into lane-sized strides
//! plus a scalar remainder tail.  This crate states and verifies that logic;
//! the floating-point lane kernels that consume it are deliberately outside
//! the verified library.

pub mod cell;
pub mod gradient;
pub mod grid;
pub mod perm;
