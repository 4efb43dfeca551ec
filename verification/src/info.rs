//! OpenGL API flavors.

use vstd::prelude::*;

verus! {

/// The OpenGL API flavor that a connection supports.
#[derive(Clone, Copy, Debug, PartialEq, Eq, Structural)]
pub enum GLApi {
    /// OpenGL (full-fat).
    GL,
    /// OpenGL ES (embedded).
    GLES,
}

} // verus!
