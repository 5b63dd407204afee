//! Dispatch layer that maps strided, multi-dimensional array views onto the
//! calling convention of a BLAS-style numeric library.
//!
//! The crate performs no numeric computation itself.  It decides, purely from
//! stride inspection, which storage order, transpose flags and leading
//! dimensions a foreign kernel must be called with, and it manages a
//! write-once registry of foreign function pointers supplied at run time.
//! The unsafe foreign calls themselves live outside this crate; everything
//! here is ordinary verified code on plain integers and strings.

use vstd::prelude::*;

pub mod buffer;
pub mod fortran;
pub mod injection;
pub mod layout;
pub mod matmul;
pub mod matvec;
pub mod scalar;

use crate::layout::{MatLayout, VecLayout};
use crate::matmul::MatMulPlanner;
use crate::matvec::{MatVecPlanner, OuterPlanner};

verus! {

/// Marker for the statically linked BLAS backend.
#[derive(Default, Clone, Copy)]
pub struct Blas;

impl Blas {
    /// Starts a matrix-multiply plan for destination = A * B.
    pub fn matmul(&self, a: MatLayout, b: MatLayout) -> (r: MatMulPlanner)
        ensures
            r.a == a && r.b == b,
    {
        MatMulPlanner::new(a, b)
    }

    /// Starts a matrix-vector plan for y = A * x.
    pub fn matvec(&self, a: MatLayout, x: VecLayout) -> (r: MatVecPlanner)
        ensures
            r.a == a && r.x == x,
    {
        MatVecPlanner::new(a, x)
    }

    /// Starts an outer-product plan for A = x * yᵗ.
    pub fn outer(&self, x: VecLayout, y: VecLayout) -> (r: OuterPlanner)
        ensures
            r.x == x && r.y == y,
    {
        OuterPlanner::new(x, y)
    }
}

} // verus!
