//! The native API families that can stand behind a handle.

use vstd::prelude::*;

verus! {

/// One native API family. Every handle belongs to exactly one, from its
/// creation to its destruction.
#[derive(Clone, Copy, PartialEq, Eq, Structural, Debug)]
pub enum Backend {
    /// OpenCL 1.2+.
    Cl,
    /// OpenGL 4.3+ compute shaders.
    Gl,
}

} // verus!
