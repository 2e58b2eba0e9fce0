//! Textures of the OpenCL backend.

use vstd::prelude::*;
use crate::api::cl::call::{CL_IMAGE_HEIGHT, CL_IMAGE_WIDTH};
use crate::api::cl::image::{bind, bind_step, extent, extent_step, release, release_step};
use crate::native::{Reply, Step, StepView};
use crate::texture::{ExternalTexture, Texture};

verus! {

/// Releases the texture and its surface.
pub open spec fn destroy_step(this: Texture, replies: Seq<Reply>) -> StepView<()> {
    release_step(this.data, replies)
}

/// Asks the driver for the width of the texture.
pub open spec fn width_step(this: Texture, replies: Seq<Reply>) -> StepView<u32> {
    extent_step(this.data, CL_IMAGE_WIDTH, replies)
}

/// Asks the driver for the height of the texture.
pub open spec fn height_step(this: Texture, replies: Seq<Reply>) -> StepView<u32> {
    extent_step(this.data, CL_IMAGE_HEIGHT, replies)
}

/// Makes the external texture a view of the surface that backs the
/// texture, in the texture's own format.
pub open spec fn bind_to_step(this: Texture, external_texture: ExternalTexture, replies: Seq<Reply>) -> StepView<
    (),
> {
    bind_step(this.data, external_texture->0, replies)
}

/// Releases the texture and its surface.
pub fn destroy(this: &Texture, replies: &[Reply]) -> (step: Step<()>)
    ensures
        step@ == destroy_step(*this, replies@),
{
    release(&this.data, replies)
}

/// Returns the width of this texture in pixels.
pub fn width(this: &Texture, replies: &[Reply]) -> (step: Step<u32>)
    ensures
        step@ == width_step(*this, replies@),
{
    extent(&this.data, CL_IMAGE_WIDTH, replies)
}

/// Returns the height of this texture in pixels.
pub fn height(this: &Texture, replies: &[Reply]) -> (step: Step<u32>)
    ensures
        step@ == height_step(*this, replies@),
{
    extent(&this.data, CL_IMAGE_HEIGHT, replies)
}

/// Makes `external_texture` reflect the contents of this texture.
pub fn bind_to(this: &Texture, external_texture: &ExternalTexture, replies: &[Reply]) -> (step: Step<
    (),
>)
    ensures
        step@ == bind_to_step(*this, *external_texture, replies@),
{
    let ExternalTexture::Gl(texture) = *external_texture;
    bind(&this.data, texture, replies)
}

} // verus!
