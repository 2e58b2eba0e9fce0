//! The platform's allocator of surfaces that can be shared between APIs.

use vstd::prelude::*;

verus! {

/// The error code of a call that succeeded.
pub const NO_ERROR: i32 = 0;

/// One call of the shared-surface allocator. The doc comment of each call
/// names the fields of the reply that the call fills.
#[allow(inconsistent_fields)]
#[derive(Clone, Copy, Debug)]
pub enum SurfaceCall {
    /// Allocates a surface of `width` by `height` elements of
    /// `bytes_per_element` bytes each. Fills `object` with the surface.
    Create { width: u32, height: u32, bytes_per_element: u32 },
    /// Gives up the reference that this library holds on `surface`.
    Release { surface: usize },
    /// Makes the rectangle texture that is bound in the current graphics
    /// context a view of `surface`. Fills `integer` with the error code,
    /// which is zero where the texture was bound.
    BindToGlTexture {
        surface: usize,
        width: i32,
        height: i32,
        internal_format: u32,
        format: u32,
        pixel_type: u32,
    },
}

} // verus!
