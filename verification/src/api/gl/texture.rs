//! Textures of the OpenGL backend.

use vstd::prelude::*;
use crate::api::gl::call::{TEXTURE_2D, TEXTURE_HEIGHT, TEXTURE_WIDTH};
use crate::api::gl::image::{delete, delete_step, extent, extent_step, view, view_step};
use crate::native::{Reply, Step, StepView};
use crate::texture::{ExternalTexture, Texture};

verus! {

/// Deletes the texture.
pub open spec fn destroy_step(this: Texture, replies: Seq<Reply>) -> StepView<()> {
    delete_step(this.data[0], replies)
}

/// Asks the driver for the width of the texture.
pub open spec fn width_step(this: Texture, replies: Seq<Reply>) -> StepView<u32> {
    extent_step(TEXTURE_2D, this.data[0], TEXTURE_WIDTH, replies)
}

/// Asks the driver for the height of the texture.
pub open spec fn height_step(this: Texture, replies: Seq<Reply>) -> StepView<u32> {
    extent_step(TEXTURE_2D, this.data[0], TEXTURE_HEIGHT, replies)
}

/// Makes the external texture a view of the texture, in the internal
/// format that the driver reports for the texture.
pub open spec fn bind_to_step(this: Texture, external_texture: ExternalTexture, replies: Seq<Reply>) -> StepView<
    (),
> {
    view_step(TEXTURE_2D, this.data[0], external_texture->0, replies)
}

/// Deletes the texture.
pub fn destroy(this: &Texture, replies: &[Reply]) -> (step: Step<()>)
    ensures
        step@ == destroy_step(*this, replies@),
{
    delete(this.data[0], replies)
}

/// Returns the width of this texture in pixels.
pub fn width(this: &Texture, replies: &[Reply]) -> (step: Step<u32>)
    ensures
        step@ == width_step(*this, replies@),
{
    extent(TEXTURE_2D, this.data[0], TEXTURE_WIDTH, replies)
}

/// Returns the height of this texture in pixels.
pub fn height(this: &Texture, replies: &[Reply]) -> (step: Step<u32>)
    ensures
        step@ == height_step(*this, replies@),
{
    extent(TEXTURE_2D, this.data[0], TEXTURE_HEIGHT, replies)
}

/// Makes `external_texture` reflect the contents of this texture.
pub fn bind_to(this: &Texture, external_texture: &ExternalTexture, replies: &[Reply]) -> (step: Step<
    (),
>)
    ensures
        step@ == bind_to_step(*this, *external_texture, replies@),
{
    let ExternalTexture::Gl(texture) = *external_texture;
    view(TEXTURE_2D, this.data[0], texture, replies)
}

} // verus!
