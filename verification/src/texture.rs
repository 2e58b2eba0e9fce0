//! Textures: images that shaders sample.

use vstd::prelude::*;
use crate::api::cl::call::ClCall;
use crate::api::cl;
use crate::api::gl::call::GlCall;
use crate::api::gl;
use crate::api::surface::SurfaceCall;
use crate::backend::Backend;
use crate::native::{call_at, complete, done, Call, Reply, Step, StepView};

verus! {

/// A texture.
#[derive(Debug)]
pub struct Texture {
    /// The native texture, and what its backend keeps beside it.
    pub data: [usize; 2],
    /// The operations of the backend that created the texture.
    pub functions: TextureFunctions,
}

/// The operations on a texture, as one backend supplies them.
#[derive(Clone, Copy, Debug)]
pub struct TextureFunctions {
    pub backend: Backend,
}

/// An external resource that can be made to refer to a texture.
#[derive(Clone, Copy, Debug)]
pub enum ExternalTexture {
    /// The name of an OpenGL texture.
    Gl(u32),
}

/// A color.
#[derive(Clone, Copy, PartialEq, Eq, Structural, Debug)]
pub enum Color {
    /// A 4-channel color.
    UInt(u32, u32, u32, u32),
}

impl TextureFunctions {
    /// The step of `destroy`, as the backend of this table takes it.
    pub open spec fn destroy_step(self, this: Texture, replies: Seq<Reply>) -> StepView<()> {
        match self.backend {
            Backend::Cl => cl::texture::destroy_step(this, replies),
            Backend::Gl => gl::texture::destroy_step(this, replies),
        }
    }

    /// The entry that releases the native texture.
    pub fn destroy(&self, this: &Texture, replies: &[Reply]) -> (step: Step<()>)
        ensures
            step@ == self.destroy_step(*this, replies@),
    {
        match self.backend {
            Backend::Cl => cl::texture::destroy(this, replies),
            Backend::Gl => gl::texture::destroy(this, replies),
        }
    }

    /// The step of `bind_to`, as the backend of this table takes it.
    pub open spec fn bind_to_step(
        self,
        this: Texture,
        external_texture: ExternalTexture,
        replies: Seq<Reply>,
    ) -> StepView<()> {
        match self.backend {
            Backend::Cl => cl::texture::bind_to_step(this, external_texture, replies),
            Backend::Gl => gl::texture::bind_to_step(this, external_texture, replies),
        }
    }

    /// The entry that binds an external resource to the texture.
    pub fn bind_to(
        &self,
        this: &Texture,
        external_texture: &ExternalTexture,
        replies: &[Reply],
    ) -> (step: Step<()>)
        ensures
            step@ == self.bind_to_step(*this, *external_texture, replies@),
    {
        match self.backend {
            Backend::Cl => cl::texture::bind_to(this, external_texture, replies),
            Backend::Gl => gl::texture::bind_to(this, external_texture, replies),
        }
    }

    /// The step of `width`, as the backend of this table takes it.
    pub open spec fn width_step(self, this: Texture, replies: Seq<Reply>) -> StepView<u32> {
        match self.backend {
            Backend::Cl => cl::texture::width_step(this, replies),
            Backend::Gl => gl::texture::width_step(this, replies),
        }
    }

    /// The entry that asks for the width.
    pub fn width(&self, this: &Texture, replies: &[Reply]) -> (step: Step<u32>)
        ensures
            step@ == self.width_step(*this, replies@),
    {
        match self.backend {
            Backend::Cl => cl::texture::width(this, replies),
            Backend::Gl => gl::texture::width(this, replies),
        }
    }

    /// The step of `height`, as the backend of this table takes it.
    pub open spec fn height_step(self, this: Texture, replies: Seq<Reply>) -> StepView<u32> {
        match self.backend {
            Backend::Cl => cl::texture::height_step(this, replies),
            Backend::Gl => gl::texture::height_step(this, replies),
        }
    }

    /// The entry that asks for the height.
    pub fn height(&self, this: &Texture, replies: &[Reply]) -> (step: Step<u32>)
        ensures
            step@ == self.height_step(*this, replies@),
    {
        match self.backend {
            Backend::Cl => cl::texture::height(this, replies),
            Backend::Gl => gl::texture::height(this, replies),
        }
    }
}

impl Texture {
    /// Makes the handle of the native texture `data`, on which `functions`
    /// operate.
    pub fn from_raw_data(data: [usize; 2], functions: TextureFunctions) -> (texture: Texture)
        ensures
            texture == (Texture { data, functions }),
    {
        Texture { data, functions }
    }

    /// Returns the native texture and what its backend keeps beside it.
    pub fn data(&self) -> (data: [usize; 2])
        ensures
            data == self.data,
    {
        self.data
    }

    /// The step of `destroy`: that of the entry of the handle's table.
    pub open spec fn destroy_step(self, replies: Seq<Reply>) -> StepView<()> {
        self.functions.destroy_step(self, replies)
    }

    /// Releases the native texture of this texture. The handle is of no use afterwards: the program
    /// calls this once, when it drops the handle.
    pub fn destroy(&self, replies: &[Reply]) -> (step: Step<()>)
        ensures
            step@ == self.destroy_step(replies@),
    {
        self.functions.destroy(self, replies)
    }

    /// The step of `bind_to`: that of the entry of the handle's table.
    pub open spec fn bind_to_step(
        self,
        external_texture: ExternalTexture,
        replies: Seq<Reply>,
    ) -> StepView<()> {
        self.functions.bind_to_step(self, external_texture, replies)
    }

    /// Makes `external_texture` reflect the contents of this texture.
    pub fn bind_to(&self, external_texture: &ExternalTexture, replies: &[Reply]) -> (step: Step<()>)
        ensures
            step@ == self.bind_to_step(*external_texture, replies@),
    {
        self.functions.bind_to(self, external_texture, replies)
    }

    /// The step of `width`: that of the entry of the handle's table.
    pub open spec fn width_step(self, replies: Seq<Reply>) -> StepView<u32> {
        self.functions.width_step(self, replies)
    }

    /// Returns the width of this texture in pixels.
    pub fn width(&self, replies: &[Reply]) -> (step: Step<u32>)
        ensures
            step@ == self.width_step(replies@),
    {
        self.functions.width(self, replies)
    }

    /// The step of `height`: that of the entry of the handle's table.
    pub open spec fn height_step(self, replies: Seq<Reply>) -> StepView<u32> {
        self.functions.height_step(self, replies)
    }

    /// Returns the height of this texture in pixels.
    pub fn height(&self, replies: &[Reply]) -> (step: Step<u32>)
        ensures
            step@ == self.height_step(replies@),
    {
        self.functions.height(self, replies)
    }
}

/// Destroying a texture releases what it holds exactly once. On the OpenCL
/// backend every run of the operation consists of two calls: the shared
/// surface is given up and the memory object is released. On the OpenGL
/// backend it consists of one call, which deletes the texture. The operation
/// ends well whatever the driver replies.
pub proof fn destroy_releases_once(texture: Texture, replies: Seq<Reply>)
    requires
        complete(|r: Seq<Reply>| texture.destroy_step(r), replies),
    ensures
        texture.functions.backend == Backend::Cl ==> replies.len() == 2 && call_at(
            |r: Seq<Reply>| texture.destroy_step(r),
            replies,
            0,
        ) == Call::Surface(SurfaceCall::Release { surface: texture.data[1] }) && call_at(
            |r: Seq<Reply>| texture.destroy_step(r),
            replies,
            1,
        ) == Call::Cl(ClCall::ReleaseMemObject { memory: texture.data[0] }),
        texture.functions.backend == Backend::Gl ==> replies.len() == 1 && call_at(
            |r: Seq<Reply>| texture.destroy_step(r),
            replies,
            0,
        ) == Call::Gl(GlCall::DeleteTextures { texture: texture.data[0] as u32 }),
        texture.destroy_step(replies) == done(()),
{
    let step = |r: Seq<Reply>| texture.destroy_step(r);
    assert(step(replies) is Done);
    if replies.len() > 1 {
        assert(step(replies.take(1)) is Call);
    }
    if replies.len() > 2 {
        assert(step(replies.take(2)) is Call);
    }
}

/// Every operation on a texture ends: it is finished once the driver has
/// replied six times, whatever it replied.
pub proof fn operations_finish(texture: Texture, external_texture: ExternalTexture, replies: Seq<Reply>)
    requires
        replies.len() >= 6,
    ensures
        texture.destroy_step(replies) is Done,
        texture.bind_to_step(external_texture, replies) is Done,
        texture.width_step(replies) is Done,
        texture.height_step(replies) is Done,
{
}

} // verus!
