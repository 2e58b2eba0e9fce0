//! Images, which are essentially read-write textures.

use vstd::prelude::*;
use crate::api::cl::call::ClCall;
use crate::api::cl;
use crate::api::gl::call::GlCall;
use crate::api::gl::call::{FLOAT, R32F, R8, RED, RGBA, RGBA8, UNSIGNED_BYTE};
use crate::api::gl;
use crate::api::surface::SurfaceCall;
use crate::backend::Backend;
use crate::native::{call_at, complete, done, Call, Reply, Step, StepView};

verus! {

/// An image, which is essentially a read-write texture.
#[derive(Debug)]
pub struct Image {
    /// The native image or texture, and what its backend keeps beside it: the
    /// shared surface that backs the image, or the number of its protection.
    pub data: [usize; 2],
    /// The operations of the backend that created the image.
    pub functions: ImageFunctions,
}

/// The operations on an image, as one backend supplies them.
#[derive(Clone, Copy, Debug)]
pub struct ImageFunctions {
    pub backend: Backend,
}

/// An external resource that can be made to refer to this image.
#[derive(Clone, Copy, Debug)]
pub enum ExternalImage {
    /// The name of an OpenGL texture.
    GlTexture(u32),
}

/// The image format of a texture.
#[derive(Clone, Copy, PartialEq, Eq, Structural, Debug)]
pub enum Format {
    /// 8-bit unsigned single-channel.
    R8,
    /// 8-bit unsigned four-channel.
    RGBA8,
    /// 32-bit single-channel floating-point.
    R32F,
}

/// A color.
#[derive(Clone, Copy, PartialEq, Eq, Structural, Debug)]
pub enum Color {
    /// A 4-channel color.
    UInt(u32, u32, u32, u32),
}

/// The size of an image in pixels.
#[derive(Clone, Copy, PartialEq, Eq, Structural, Debug)]
pub struct Size2D {
    pub width: u32,
    pub height: u32,
}

impl Size2D {
    /// The size of `width` by `height` pixels.
    pub fn new(width: u32, height: u32) -> (size: Size2D)
        ensures
            size == (Size2D { width, height }),
    {
        Size2D { width, height }
    }
}

impl Image {
    /// Makes the handle of the native image `data`, on which `functions`
    /// operate.
    pub fn from_raw_data(data: [usize; 2], functions: ImageFunctions) -> (image: Image)
        ensures
            image == (Image { data, functions }),
    {
        Image { data, functions }
    }

    /// Returns the native image and what its backend keeps beside it.
    pub fn data(&self) -> (data: [usize; 2])
        ensures
            data == self.data,
    {
        self.data
    }

    /// The step of `destroy`: that of the entry of the handle's table.
    pub open spec fn destroy_step(self, replies: Seq<Reply>) -> StepView<()> {
        self.functions.destroy_step(self, replies)
    }

    /// Releases the native image of this image. The handle is of no use afterwards: the program
    /// calls this once, when it drops the handle.
    pub fn destroy(&self, replies: &[Reply]) -> (step: Step<()>)
        ensures
            step@ == self.destroy_step(replies@),
    {
        self.functions.destroy(self, replies)
    }

    /// The step of `bind_to`: that of the entry of the handle's table.
    pub open spec fn bind_to_step(
        self,
        external_image: ExternalImage,
        replies: Seq<Reply>,
    ) -> StepView<()> {
        self.functions.bind_to_step(self, external_image, replies)
    }

    /// Makes `external_image` reflect the contents of this image.
    ///
    /// This is useful in order to render an image created using a compute shader with OpenGL, for
    /// example.
    pub fn bind_to(&self, external_image: &ExternalImage, replies: &[Reply]) -> (step: Step<()>)
        ensures
            step@ == self.bind_to_step(*external_image, replies@),
    {
        self.functions.bind_to(self, external_image, replies)
    }

    /// The step of `width`: that of the entry of the handle's table.
    pub open spec fn width_step(self, replies: Seq<Reply>) -> StepView<u32> {
        self.functions.width_step(self, replies)
    }

    /// Returns the width of this image in pixels.
    pub fn width(&self, replies: &[Reply]) -> (step: Step<u32>)
        ensures
            step@ == self.width_step(replies@),
    {
        self.functions.width(self, replies)
    }

    /// The step of `height`: that of the entry of the handle's table.
    pub open spec fn height_step(self, replies: Seq<Reply>) -> StepView<u32> {
        self.functions.height_step(self, replies)
    }

    /// Returns the height of this image in pixels.
    pub fn height(&self, replies: &[Reply]) -> (step: Step<u32>)
        ensures
            step@ == self.height_step(replies@),
    {
        self.functions.height(self, replies)
    }

    /// The step of `format`: that of the entry of the handle's table.
    pub open spec fn format_step(self, replies: Seq<Reply>) -> StepView<Format> {
        self.functions.format_step(self, replies)
    }

    /// Returns the format of this image.
    pub fn format(&self, replies: &[Reply]) -> (step: Step<Format>)
        ensures
            step@ == self.format_step(replies@),
    {
        self.functions.format(self, replies)
    }
}

impl Format {
    /// The `format` parameter of `glTexImage2D()` for this image format.
    pub open spec fn spec_gl_format(self) -> u32 {
        match self {
            Format::R8 | Format::R32F => RED,
            Format::RGBA8 => RGBA,
        }
    }

    /// The `type` parameter of `glTexImage2D()` for this image format.
    pub open spec fn spec_gl_type(self) -> u32 {
        match self {
            Format::R8 | Format::RGBA8 => UNSIGNED_BYTE,
            Format::R32F => FLOAT,
        }
    }

    /// The OpenGL internal format of this image format.
    pub open spec fn spec_gl_internal_format(self) -> u32 {
        match self {
            Format::R8 => R8,
            Format::RGBA8 => RGBA8,
            Format::R32F => R32F,
        }
    }

    /// The image format whose OpenGL internal format is `internal_format`.
    pub open spec fn of_gl_internal_format(internal_format: u32) -> Option<Format> {
        if internal_format == R8 {
            Some(Format::R8)
        } else if internal_format == RGBA8 {
            Some(Format::RGBA8)
        } else if internal_format == R32F {
            Some(Format::R32F)
        } else {
            None
        }
    }

    /// The number of bytes that one pixel of this format takes.
    pub open spec fn spec_bytes_per_element(self) -> u32 {
        match self {
            Format::R8 => 1,
            Format::RGBA8 | Format::R32F => 4,
        }
    }

    /// Returns the value that should be passed as the `format` parameter to `glTexImage2D()` to
    /// create a texture matching this image format.
    #[verifier::when_used_as_spec(spec_gl_format)]
    pub fn gl_format(self) -> (format: u32)
        ensures
            format == self.spec_gl_format(),
    {
        match self {
            Format::R8 | Format::R32F => RED,
            Format::RGBA8 => RGBA,
        }
    }

    /// Returns the value that should be passed as the `type` parameter to `glTexImage2D()` to
    /// create a texture matching this image format.
    #[verifier::when_used_as_spec(spec_gl_type)]
    pub fn gl_type(self) -> (pixel_type: u32)
        ensures
            pixel_type == self.spec_gl_type(),
    {
        match self {
            Format::R8 | Format::RGBA8 => UNSIGNED_BYTE,
            Format::R32F => FLOAT,
        }
    }

    /// Returns the OpenGL image format corresponding to this image format.
    #[verifier::when_used_as_spec(spec_gl_internal_format)]
    pub fn gl_internal_format(self) -> (internal_format: u32)
        ensures
            internal_format == self.spec_gl_internal_format(),
    {
        match self {
            Format::R8 => R8,
            Format::RGBA8 => RGBA8,
            Format::R32F => R32F,
        }
    }

    /// Returns the image format whose OpenGL internal format is
    /// `internal_format`, if there is one.
    pub fn from_gl_internal_format(internal_format: u32) -> (format: Option<Format>)
        ensures
            format == Format::of_gl_internal_format(internal_format),
    {
        if internal_format == R8 {
            Some(Format::R8)
        } else if internal_format == RGBA8 {
            Some(Format::RGBA8)
        } else if internal_format == R32F {
            Some(Format::R32F)
        } else {
            None
        }
    }

    /// Returns the number of bytes that one pixel of this format takes.
    #[verifier::when_used_as_spec(spec_bytes_per_element)]
    pub fn bytes_per_element(self) -> (bytes: u32)
        ensures
            bytes == self.spec_bytes_per_element(),
    {
        match self {
            Format::R8 => 1,
            Format::RGBA8 | Format::R32F => 4,
        }
    }

    /// Every image format is found again from its OpenGL internal format, and
    /// no other number names a format.
    pub proof fn gl_internal_format_round_trip(format: Format, internal_format: u32)
        ensures
            Format::of_gl_internal_format(format.spec_gl_internal_format()) == Some(format),
            Format::of_gl_internal_format(internal_format) == Some(format)
                ==> internal_format == format.spec_gl_internal_format(),
    {
    }
}

impl ImageFunctions {
    /// The step of `destroy`, as the backend of this table takes it.
    pub open spec fn destroy_step(self, this: Image, replies: Seq<Reply>) -> StepView<()> {
        match self.backend {
            Backend::Cl => cl::image::destroy_step(this, replies),
            Backend::Gl => gl::image::destroy_step(this, replies),
        }
    }

    /// The entry that releases the native image.
    pub fn destroy(&self, this: &Image, replies: &[Reply]) -> (step: Step<()>)
        ensures
            step@ == self.destroy_step(*this, replies@),
    {
        match self.backend {
            Backend::Cl => cl::image::destroy(this, replies),
            Backend::Gl => gl::image::destroy(this, replies),
        }
    }

    /// The step of `bind_to`, as the backend of this table takes it.
    pub open spec fn bind_to_step(
        self,
        this: Image,
        external_image: ExternalImage,
        replies: Seq<Reply>,
    ) -> StepView<()> {
        match self.backend {
            Backend::Cl => cl::image::bind_to_step(this, external_image, replies),
            Backend::Gl => gl::image::bind_to_step(this, external_image, replies),
        }
    }

    /// The entry that binds an external resource to the image.
    pub fn bind_to(
        &self,
        this: &Image,
        external_image: &ExternalImage,
        replies: &[Reply],
    ) -> (step: Step<()>)
        ensures
            step@ == self.bind_to_step(*this, *external_image, replies@),
    {
        match self.backend {
            Backend::Cl => cl::image::bind_to(this, external_image, replies),
            Backend::Gl => gl::image::bind_to(this, external_image, replies),
        }
    }

    /// The step of `width`, as the backend of this table takes it.
    pub open spec fn width_step(self, this: Image, replies: Seq<Reply>) -> StepView<u32> {
        match self.backend {
            Backend::Cl => cl::image::width_step(this, replies),
            Backend::Gl => gl::image::width_step(this, replies),
        }
    }

    /// The entry that asks for the width.
    pub fn width(&self, this: &Image, replies: &[Reply]) -> (step: Step<u32>)
        ensures
            step@ == self.width_step(*this, replies@),
    {
        match self.backend {
            Backend::Cl => cl::image::width(this, replies),
            Backend::Gl => gl::image::width(this, replies),
        }
    }

    /// The step of `height`, as the backend of this table takes it.
    pub open spec fn height_step(self, this: Image, replies: Seq<Reply>) -> StepView<u32> {
        match self.backend {
            Backend::Cl => cl::image::height_step(this, replies),
            Backend::Gl => gl::image::height_step(this, replies),
        }
    }

    /// The entry that asks for the height.
    pub fn height(&self, this: &Image, replies: &[Reply]) -> (step: Step<u32>)
        ensures
            step@ == self.height_step(*this, replies@),
    {
        match self.backend {
            Backend::Cl => cl::image::height(this, replies),
            Backend::Gl => gl::image::height(this, replies),
        }
    }

    /// The step of `format`, as the backend of this table takes it.
    pub open spec fn format_step(self, this: Image, replies: Seq<Reply>) -> StepView<Format> {
        match self.backend {
            Backend::Cl => cl::image::format_step(this, replies),
            Backend::Gl => gl::image::format_step(this, replies),
        }
    }

    /// The entry that asks for the format.
    pub fn format(&self, this: &Image, replies: &[Reply]) -> (step: Step<Format>)
        ensures
            step@ == self.format_step(*this, replies@),
    {
        match self.backend {
            Backend::Cl => cl::image::format(this, replies),
            Backend::Gl => gl::image::format(this, replies),
        }
    }
}

/// Destroying an image releases what it holds exactly once. On the OpenCL
/// backend every run of the operation consists of two calls: the shared
/// surface is given up and the memory object is released. On the OpenGL
/// backend it consists of one call, which deletes the texture. The operation
/// ends well whatever the driver replies.
pub proof fn destroy_releases_once(image: Image, replies: Seq<Reply>)
    requires
        complete(|r: Seq<Reply>| image.destroy_step(r), replies),
    ensures
        image.functions.backend == Backend::Cl ==> replies.len() == 2 && call_at(
            |r: Seq<Reply>| image.destroy_step(r),
            replies,
            0,
        ) == Call::Surface(SurfaceCall::Release { surface: image.data[1] }) && call_at(
            |r: Seq<Reply>| image.destroy_step(r),
            replies,
            1,
        ) == Call::Cl(ClCall::ReleaseMemObject { memory: image.data[0] }),
        image.functions.backend == Backend::Gl ==> replies.len() == 1 && call_at(
            |r: Seq<Reply>| image.destroy_step(r),
            replies,
            0,
        ) == Call::Gl(GlCall::DeleteTextures { texture: image.data[0] as u32 }),
        image.destroy_step(replies) == done(()),
{
    let step = |r: Seq<Reply>| image.destroy_step(r);
    assert(step(replies) is Done);
    if replies.len() > 1 {
        assert(step(replies.take(1)) is Call);
    }
    if replies.len() > 2 {
        assert(step(replies.take(2)) is Call);
    }
}

/// Every operation on an image ends: it is finished once the driver has
/// replied six times, whatever it replied.
pub proof fn operations_finish(image: Image, external_image: ExternalImage, replies: Seq<Reply>)
    requires
        replies.len() >= 6,
    ensures
        image.destroy_step(replies) is Done,
        image.bind_to_step(external_image, replies) is Done,
        image.width_step(replies) is Done,
        image.height_step(replies) is Done,
        image.format_step(replies) is Done,
{
}

} // verus!
