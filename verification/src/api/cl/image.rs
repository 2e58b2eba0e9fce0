//! Images of the OpenCL backend.

use vstd::prelude::*;
use crate::api::cl::call::{ClCall, CL_IMAGE_HEIGHT, CL_IMAGE_WIDTH, CL_SUCCESS};
use crate::api::cl::device::{format_from, format_of, image_format, image_format_round_trip};
use crate::api::gl::call::{GlCall, TEXTURE0, TEXTURE_RECTANGLE};
use crate::api::surface::{SurfaceCall, NO_ERROR};
use crate::image::{ExternalImage, Format, Image};
use crate::native::{ask, done, failed, Call, Reply, Step, StepView};

verus! {

/// The image format that `reply` reports: the format of the channel order
/// and the channel data type that the driver wrote, where it wrote both
/// without failure and they name a format.
pub open spec fn reported_format(reply: Reply) -> Option<Format> {
    if reply.integer == CL_SUCCESS && reply.objects@.len() >= 2 {
        format_of(reply.objects@[0] as u32, reply.objects@[1] as u32)
    } else {
        None
    }
}

/// The step that ends the query of an extent according to `reply`: with the
/// extent in pixels where the driver reported it.
pub open spec fn reported_extent(reply: Reply) -> StepView<u32> {
    if reply.integer == CL_SUCCESS {
        done(reply.size as u32)
    } else {
        failed()
    }
}

/// Gives up the shared surface and releases the memory object: two calls,
/// whose replies are not looked at.
pub open spec fn release_step(data: [usize; 2], replies: Seq<Reply>) -> StepView<()> {
    if replies.len() == 0 {
        ask(Call::Surface(SurfaceCall::Release { surface: data[1] }))
    } else if replies.len() == 1 {
        ask(Call::Cl(ClCall::ReleaseMemObject { memory: data[0] }))
    } else {
        done(())
    }
}

/// Asks the driver for one extent of the memory object.
pub open spec fn extent_step(data: [usize; 2], parameter: u32, replies: Seq<Reply>) -> StepView<u32> {
    if replies.len() == 0 {
        ask(Call::Cl(ClCall::GetImageInfo { image: data[0], parameter }))
    } else {
        reported_extent(replies[0])
    }
}

/// Releases the image and its surface.
pub open spec fn destroy_step(this: Image, replies: Seq<Reply>) -> StepView<()> {
    release_step(this.data, replies)
}

/// Asks the driver for the width of the image.
pub open spec fn width_step(this: Image, replies: Seq<Reply>) -> StepView<u32> {
    extent_step(this.data, CL_IMAGE_WIDTH, replies)
}

/// Asks the driver for the height of the image.
pub open spec fn height_step(this: Image, replies: Seq<Reply>) -> StepView<u32> {
    extent_step(this.data, CL_IMAGE_HEIGHT, replies)
}

/// Asks the driver for the format of the image.
pub open spec fn format_step(this: Image, replies: Seq<Reply>) -> StepView<Format> {
    if replies.len() == 0 {
        ask(Call::Cl(ClCall::GetImageFormat { image: this.data[0] }))
    } else {
        match reported_format(replies[0]) {
            Some(format) => done(format),
            None => failed(),
        }
    }
}

/// Makes the texture `texture` a view of the surface that backs the memory
/// object. The driver is asked for the width, the height and the format of
/// the memory object; a failure, or a format that is none of this library's,
/// ends the operation. Then the texture is bound as the rectangle texture of
/// the first unit and the surface is bound to it, in that format; the
/// operation fails where the surface cannot be bound.
pub open spec fn bind_step(data: [usize; 2], texture: u32, replies: Seq<Reply>) -> StepView<()> {
    if replies.len() == 0 {
        ask(Call::Cl(ClCall::GetImageInfo { image: data[0], parameter: CL_IMAGE_WIDTH }))
    } else if replies[0].integer != CL_SUCCESS {
        failed()
    } else if replies.len() == 1 {
        ask(Call::Cl(ClCall::GetImageInfo { image: data[0], parameter: CL_IMAGE_HEIGHT }))
    } else if replies[1].integer != CL_SUCCESS {
        failed()
    } else if replies.len() == 2 {
        ask(Call::Cl(ClCall::GetImageFormat { image: data[0] }))
    } else {
        match reported_format(replies[2]) {
            None => failed(),
            Some(format) => {
                if replies.len() == 3 {
                    ask(Call::Gl(GlCall::ActiveTexture { unit: TEXTURE0 }))
                } else if replies.len() == 4 {
                    ask(Call::Gl(GlCall::BindTexture { target: TEXTURE_RECTANGLE, texture }))
                } else if replies.len() == 5 {
                    ask(
                        Call::Surface(
                            SurfaceCall::BindToGlTexture {
                                surface: data[1],
                                width: replies[0].size as u32 as i32,
                                height: replies[1].size as u32 as i32,
                                internal_format: format.spec_gl_internal_format(),
                                format: format.spec_gl_format(),
                                pixel_type: format.spec_gl_type(),
                            },
                        ),
                    )
                } else if replies[5].integer == NO_ERROR {
                    done(())
                } else {
                    failed()
                }
            },
        }
    }
}

/// Makes the external texture a view of the surface that backs the image.
pub open spec fn bind_to_step(this: Image, external_image: ExternalImage, replies: Seq<Reply>) -> StepView<
    (),
> {
    bind_step(this.data, external_image->0, replies)
}

/// Returns the image format that `reply` reports, if it reports one.
pub fn format_reported(reply: &Reply) -> (format: Option<Format>)
    ensures
        format == reported_format(*reply),
{
    if reply.integer == CL_SUCCESS && reply.objects.len() >= 2 {
        format_from(
            #[verifier::truncate]
            (reply.objects[0] as u32),
            #[verifier::truncate]
            (reply.objects[1] as u32),
        )
    } else {
        None
    }
}

/// Gives up the shared surface and releases the memory object.
pub fn release(data: &[usize; 2], replies: &[Reply]) -> (step: Step<()>)
    ensures
        step@ == release_step(*data, replies@),
{
    if replies.len() == 0 {
        Step::ask(Call::Surface(SurfaceCall::Release { surface: data[1] }))
    } else if replies.len() == 1 {
        Step::ask(Call::Cl(ClCall::ReleaseMemObject { memory: data[0] }))
    } else {
        Step::done(())
    }
}

/// Asks the driver for one extent of the memory object.
pub fn extent(data: &[usize; 2], parameter: u32, replies: &[Reply]) -> (step: Step<u32>)
    ensures
        step@ == extent_step(*data, parameter, replies@),
{
    if replies.len() == 0 {
        Step::ask(Call::Cl(ClCall::GetImageInfo { image: data[0], parameter }))
    } else if replies[0].integer == CL_SUCCESS {
        Step::done(
            #[verifier::truncate]
            (replies[0].size as u32),
        )
    } else {
        Step::failed()
    }
}

/// Releases the image and its surface.
pub fn destroy(this: &Image, replies: &[Reply]) -> (step: Step<()>)
    ensures
        step@ == destroy_step(*this, replies@),
{
    release(&this.data, replies)
}

/// Returns the width of this image in pixels.
pub fn width(this: &Image, replies: &[Reply]) -> (step: Step<u32>)
    ensures
        step@ == width_step(*this, replies@),
{
    extent(&this.data, CL_IMAGE_WIDTH, replies)
}

/// Returns the height of this image in pixels.
pub fn height(this: &Image, replies: &[Reply]) -> (step: Step<u32>)
    ensures
        step@ == height_step(*this, replies@),
{
    extent(&this.data, CL_IMAGE_HEIGHT, replies)
}

/// Returns the format of this image.
pub fn format(this: &Image, replies: &[Reply]) -> (step: Step<Format>)
    ensures
        step@ == format_step(*this, replies@),
{
    if replies.len() == 0 {
        Step::ask(Call::Cl(ClCall::GetImageFormat { image: this.data[0] }))
    } else {
        match format_reported(&replies[0]) {
            Some(format) => Step::done(format),
            None => Step::failed(),
        }
    }
}

/// Makes the texture `texture` a view of the surface that backs the memory
/// object.
pub fn bind(data: &[usize; 2], texture: u32, replies: &[Reply]) -> (step: Step<()>)
    ensures
        step@ == bind_step(*data, texture, replies@),
{
    if replies.len() == 0 {
        Step::ask(Call::Cl(ClCall::GetImageInfo { image: data[0], parameter: CL_IMAGE_WIDTH }))
    } else if replies[0].integer != CL_SUCCESS {
        Step::failed()
    } else if replies.len() == 1 {
        Step::ask(Call::Cl(ClCall::GetImageInfo { image: data[0], parameter: CL_IMAGE_HEIGHT }))
    } else if replies[1].integer != CL_SUCCESS {
        Step::failed()
    } else if replies.len() == 2 {
        Step::ask(Call::Cl(ClCall::GetImageFormat { image: data[0] }))
    } else {
        match format_reported(&replies[2]) {
            None => Step::failed(),
            Some(format) => {
                if replies.len() == 3 {
                    Step::ask(Call::Gl(GlCall::ActiveTexture { unit: TEXTURE0 }))
                } else if replies.len() == 4 {
                    Step::ask(Call::Gl(GlCall::BindTexture { target: TEXTURE_RECTANGLE, texture }))
                } else if replies.len() == 5 {
                    let width = #[verifier::truncate]
                    (replies[0].size as u32);
                    let height = #[verifier::truncate]
                    (replies[1].size as u32);
                    Step::ask(
                        Call::Surface(
                            SurfaceCall::BindToGlTexture {
                                surface: data[1],
                                width: #[verifier::truncate]
                                (width as i32),
                                height: #[verifier::truncate]
                                (height as i32),
                                internal_format: format.gl_internal_format(),
                                format: format.gl_format(),
                                pixel_type: format.gl_type(),
                            },
                        ),
                    )
                } else if replies[5].integer == NO_ERROR {
                    Step::done(())
                } else {
                    Step::failed()
                }
            },
        }
    }
}

/// Makes `external_image` reflect the contents of this image.
pub fn bind_to(this: &Image, external_image: &ExternalImage, replies: &[Reply]) -> (step: Step<()>)
    ensures
        step@ == bind_to_step(*this, *external_image, replies@),
{
    let ExternalImage::GlTexture(texture) = *external_image;
    bind(&this.data, texture, replies)
}

/// What the driver reports of an image is what the queries return: an
/// extent is returned as the driver reported it, and so is the format whose
/// channel order and channel data type the driver reported. An image thus
/// answers with the values that it was made with wherever the driver does.
pub proof fn reports_are_returned(
    this: Image,
    format: Format,
    width: u32,
    height: u32,
    replies: Seq<Reply>,
)
    requires
        replies.len() >= 1,
        replies[0].integer == CL_SUCCESS,
    ensures
        replies[0].size == width ==> width_step(this, replies) == done(width),
        replies[0].size == height ==> height_step(this, replies) == done(height),
        replies[0].objects@ == seq![image_format(format).0 as usize, image_format(format).1 as usize]
            ==> format_step(this, replies) == done(format),
{
    image_format_round_trip(format, 0, 0);
}

} // verus!
