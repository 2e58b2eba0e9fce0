//! Images of the OpenGL backend.

use vstd::prelude::*;
use crate::api::gl::call::{
    by_error, finish_by_error, no_error, GlCall, NO_ERROR, TEXTURE0, TEXTURE_HEIGHT,
    TEXTURE_INTERNAL_FORMAT, TEXTURE_RECTANGLE, TEXTURE_WIDTH,
};
use crate::image::{ExternalImage, Format, Image};
use crate::native::{ask, done, failed, Call, Reply, Step, StepView};

verus! {

/// Binds `texture` to `target` on the first unit and asks the driver for
/// `parameter` of its base level, then for its error. The parameter is the
/// result; the operation fails where the driver reports an error.
pub open spec fn parameter_step(target: u32, texture: usize, parameter: u32, replies: Seq<Reply>) -> StepView<
    i32,
> {
    if replies.len() == 0 {
        ask(Call::Gl(GlCall::ActiveTexture { unit: TEXTURE0 }))
    } else if replies.len() == 1 {
        ask(Call::Gl(GlCall::BindTexture { target, texture: texture as u32 }))
    } else if replies.len() == 2 {
        ask(Call::Gl(GlCall::GetTexLevelParameteriv { target, level: 0, parameter }))
    } else if replies.len() == 3 {
        ask(Call::Gl(GlCall::GetError))
    } else if no_error(replies[3]) {
        done(replies[2].integer)
    } else {
        failed()
    }
}

/// Makes the texture `external` a view of `texture`, in the internal format
/// that the driver reports for `texture`: a view of its base level and its
/// first layer. The operation fails where the driver reports an error of the
/// query or of the view.
pub open spec fn view_step(target: u32, texture: usize, external: u32, replies: Seq<Reply>) -> StepView<
    (),
> {
    match parameter_step(target, texture, TEXTURE_INTERNAL_FORMAT, replies) {
        StepView::Call(request) => StepView::Call(request),
        StepView::Done(Ok(internal_format)) => {
            if replies.len() == 4 {
                ask(
                    Call::Gl(
                        GlCall::TextureView {
                            texture: external,
                            target,
                            original: texture as u32,
                            internal_format: internal_format as u32,
                            min_level: 0,
                            levels: 1,
                            min_layer: 0,
                            layers: 1,
                        },
                    ),
                )
            } else if replies.len() == 5 {
                ask(Call::Gl(GlCall::GetError))
            } else {
                by_error(replies[5])
            }
        },
        StepView::Done(Err(error)) => StepView::Done(Err(error)),
    }
}

/// The step of an extent: that of the parameter, with the number that the
/// driver reports taken as a number of pixels.
pub open spec fn extent_step(target: u32, texture: usize, parameter: u32, replies: Seq<Reply>) -> StepView<
    u32,
> {
    match parameter_step(target, texture, parameter, replies) {
        StepView::Call(request) => StepView::Call(request),
        StepView::Done(Ok(pixels)) => done(pixels as u32),
        StepView::Done(Err(error)) => StepView::Done(Err(error)),
    }
}

/// Deletes the texture: one call.
pub open spec fn delete_step(texture: usize, replies: Seq<Reply>) -> StepView<()> {
    if replies.len() == 0 {
        ask(Call::Gl(GlCall::DeleteTextures { texture: texture as u32 }))
    } else {
        done(())
    }
}

/// Deletes the texture of the image.
pub open spec fn destroy_step(this: Image, replies: Seq<Reply>) -> StepView<()> {
    delete_step(this.data[0], replies)
}

/// Asks the driver for the width of the image.
pub open spec fn width_step(this: Image, replies: Seq<Reply>) -> StepView<u32> {
    extent_step(TEXTURE_RECTANGLE, this.data[0], TEXTURE_WIDTH, replies)
}

/// Asks the driver for the height of the image.
pub open spec fn height_step(this: Image, replies: Seq<Reply>) -> StepView<u32> {
    extent_step(TEXTURE_RECTANGLE, this.data[0], TEXTURE_HEIGHT, replies)
}

/// Asks the driver for the internal format of the image; the operation
/// fails where that is the format of none of this library's image formats.
pub open spec fn format_step(this: Image, replies: Seq<Reply>) -> StepView<Format> {
    match parameter_step(TEXTURE_RECTANGLE, this.data[0], TEXTURE_INTERNAL_FORMAT, replies) {
        StepView::Call(request) => StepView::Call(request),
        StepView::Done(Ok(internal_format)) => match Format::of_gl_internal_format(
            internal_format as u32,
        ) {
            Some(format) => done(format),
            None => failed(),
        },
        StepView::Done(Err(error)) => StepView::Done(Err(error)),
    }
}

/// Makes the external texture a view of the image's texture, in the
/// internal format that the driver reports for the image.
pub open spec fn bind_to_step(this: Image, external_image: ExternalImage, replies: Seq<Reply>) -> StepView<
    (),
> {
    view_step(TEXTURE_RECTANGLE, this.data[0], external_image->0, replies)
}

/// Asks the driver for a parameter of a texture.
pub fn parameter(target: u32, texture: usize, name: u32, replies: &[Reply]) -> (step: Step<i32>)
    ensures
        step@ == parameter_step(target, texture, name, replies@),
{
    if replies.len() == 0 {
        Step::ask(Call::Gl(GlCall::ActiveTexture { unit: TEXTURE0 }))
    } else if replies.len() == 1 {
        Step::ask(
            Call::Gl(
                GlCall::BindTexture {
                    target,
                    texture: #[verifier::truncate]
                    (texture as u32),
                },
            ),
        )
    } else if replies.len() == 2 {
        Step::ask(Call::Gl(GlCall::GetTexLevelParameteriv { target, level: 0, parameter: name }))
    } else if replies.len() == 3 {
        Step::ask(Call::Gl(GlCall::GetError))
    } else if replies[3].integer == NO_ERROR {
        Step::done(replies[2].integer)
    } else {
        Step::failed()
    }
}

/// Makes the texture `external` a view of `texture`.
pub fn view(target: u32, texture: usize, external: u32, replies: &[Reply]) -> (step: Step<()>)
    ensures
        step@ == view_step(target, texture, external, replies@),
{
    match parameter(target, texture, TEXTURE_INTERNAL_FORMAT, replies) {
        Step::Call(request) => Step::Call(request),
        Step::Done(Ok(internal_format)) => {
            if replies.len() == 4 {
                Step::ask(
                    Call::Gl(
                        GlCall::TextureView {
                            texture: external,
                            target,
                            original: #[verifier::truncate]
                            (texture as u32),
                            internal_format: #[verifier::truncate]
                            (internal_format as u32),
                            min_level: 0,
                            levels: 1,
                            min_layer: 0,
                            layers: 1,
                        },
                    ),
                )
            } else if replies.len() == 5 {
                Step::ask(Call::Gl(GlCall::GetError))
            } else {
                finish_by_error(&replies[5])
            }
        },
        Step::Done(Err(error)) => Step::Done(Err(error)),
    }
}

/// Asks the driver for an extent of a texture.
pub fn extent(target: u32, texture: usize, name: u32, replies: &[Reply]) -> (step: Step<u32>)
    ensures
        step@ == extent_step(target, texture, name, replies@),
{
    match parameter(target, texture, name, replies) {
        Step::Call(request) => Step::Call(request),
        Step::Done(Ok(pixels)) => Step::done(
            #[verifier::truncate]
            (pixels as u32),
        ),
        Step::Done(Err(error)) => Step::Done(Err(error)),
    }
}

/// Deletes a texture.
pub fn delete(texture: usize, replies: &[Reply]) -> (step: Step<()>)
    ensures
        step@ == delete_step(texture, replies@),
{
    if replies.len() == 0 {
        Step::ask(
            Call::Gl(
                GlCall::DeleteTextures {
                    texture: #[verifier::truncate]
                    (texture as u32),
                },
            ),
        )
    } else {
        Step::done(())
    }
}

/// Deletes the texture of the image.
pub fn destroy(this: &Image, replies: &[Reply]) -> (step: Step<()>)
    ensures
        step@ == destroy_step(*this, replies@),
{
    delete(this.data[0], replies)
}

/// Returns the width of this image in pixels.
pub fn width(this: &Image, replies: &[Reply]) -> (step: Step<u32>)
    ensures
        step@ == width_step(*this, replies@),
{
    extent(TEXTURE_RECTANGLE, this.data[0], TEXTURE_WIDTH, replies)
}

/// Returns the height of this image in pixels.
pub fn height(this: &Image, replies: &[Reply]) -> (step: Step<u32>)
    ensures
        step@ == height_step(*this, replies@),
{
    extent(TEXTURE_RECTANGLE, this.data[0], TEXTURE_HEIGHT, replies)
}

/// Returns the format of this image.
pub fn format(this: &Image, replies: &[Reply]) -> (step: Step<Format>)
    ensures
        step@ == format_step(*this, replies@),
{
    match parameter(TEXTURE_RECTANGLE, this.data[0], TEXTURE_INTERNAL_FORMAT, replies) {
        Step::Call(request) => Step::Call(request),
        Step::Done(Ok(internal_format)) => match Format::from_gl_internal_format(
            #[verifier::truncate]
            (internal_format as u32),
        ) {
            Some(format) => Step::done(format),
            None => Step::failed(),
        },
        Step::Done(Err(error)) => Step::Done(Err(error)),
    }
}

/// Makes `external_image` reflect the contents of this image.
pub fn bind_to(this: &Image, external_image: &ExternalImage, replies: &[Reply]) -> (step: Step<()>)
    ensures
        step@ == bind_to_step(*this, *external_image, replies@),
{
    let ExternalImage::GlTexture(texture) = *external_image;
    view(TEXTURE_RECTANGLE, this.data[0], texture, replies)
}

/// What the driver reports of an image is what the queries return: an
/// extent is returned as the driver reported it, and so is the format whose
/// internal format the driver reported. An image thus answers with the
/// values that it was made with wherever the driver does.
pub proof fn reports_are_returned(
    this: Image,
    format: Format,
    width: u32,
    height: u32,
    replies: Seq<Reply>,
)
    requires
        replies.len() >= 4,
        no_error(replies[3]),
    ensures
        replies[2].integer == width ==> width_step(this, replies) == done(width),
        replies[2].integer == height ==> height_step(this, replies) == done(height),
        replies[2].integer == format.spec_gl_internal_format() ==> format_step(this, replies) == done(
            format,
        ),
{
}

} // verus!
