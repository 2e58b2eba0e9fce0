//! A GPU that supports compute.

use vstd::prelude::*;
use crate::api::cl::call::ClCall;
use crate::api::gl::call::GlCall;
use crate::api::cl;
use crate::api::gl;
use crate::backend::Backend;
use crate::buffer::{Buffer, BufferData, Protection};
use crate::image::{Format, Image, Size2D};
use crate::native::{call_at, complete, done, Call, Reply, Step, StepView};
use crate::program::Program;
use crate::queue::Queue;
use crate::texture::Texture;

verus! {

/// A GPU that supports compute.
#[derive(Debug)]
pub struct Device {
    /// The native context.
    pub data: usize,
    /// The operations of the backend that opened the device.
    pub functions: DeviceFunctions,
}

/// The operations on a device, as one backend supplies them.
#[derive(Clone, Copy, Debug)]
pub struct DeviceFunctions {
    pub backend: Backend,
}

impl DeviceFunctions {
    /// The step of `destroy`, as the backend of this table takes it.
    pub open spec fn destroy_step(self, this: Device, replies: Seq<Reply>) -> StepView<()> {
        match self.backend {
            Backend::Cl => cl::device::destroy_step(this, replies),
            Backend::Gl => gl::device::destroy_step(this, replies),
        }
    }

    /// The entry that releases the native context.
    pub fn destroy(&self, this: &Device, replies: &[Reply]) -> (step: Step<()>)
        ensures
            step@ == self.destroy_step(*this, replies@),
    {
        match self.backend {
            Backend::Cl => cl::device::destroy(this, replies),
            Backend::Gl => gl::device::destroy(this, replies),
        }
    }

    /// The step of `create_queue`, as the backend of this table takes it.
    pub open spec fn create_queue_step(self, this: Device, replies: Seq<Reply>) -> StepView<Queue> {
        match self.backend {
            Backend::Cl => cl::device::create_queue_step(this, replies),
            Backend::Gl => gl::device::create_queue_step(this, replies),
        }
    }

    /// The entry that creates a queue.
    pub fn create_queue(&self, this: &Device, replies: &[Reply]) -> (step: Step<Queue>)
        ensures
            step@ == self.create_queue_step(*this, replies@),
    {
        match self.backend {
            Backend::Cl => cl::device::create_queue(this, replies),
            Backend::Gl => gl::device::create_queue(this, replies),
        }
    }

    /// The step of `create_program`, as the backend of this table takes it.
    pub open spec fn create_program_step(
        self,
        this: Device,
        source: &str,
        replies: Seq<Reply>,
    ) -> StepView<Program> {
        match self.backend {
            Backend::Cl => cl::device::create_program_step(this, source, replies),
            Backend::Gl => gl::device::create_program_step(this, source, replies),
        }
    }

    /// The entry that creates a program.
    pub fn create_program(
        &self,
        this: &Device,
        source: &str,
        replies: &[Reply],
    ) -> (step: Step<Program>)
        ensures
            step@ == self.create_program_step(*this, source, replies@),
    {
        match self.backend {
            Backend::Cl => cl::device::create_program(this, source, replies),
            Backend::Gl => gl::device::create_program(this, source, replies),
        }
    }

    /// The step of `create_buffer`, as the backend of this table takes it.
    pub open spec fn create_buffer_step(
        self,
        this: Device,
        protection: Protection,
        data: BufferData,
        replies: Seq<Reply>,
    ) -> StepView<Buffer> {
        match self.backend {
            Backend::Cl => cl::device::create_buffer_step(this, protection, data, replies),
            Backend::Gl => gl::device::create_buffer_step(this, protection, data, replies),
        }
    }

    /// The entry that creates a buffer.
    pub fn create_buffer(
        &self,
        this: &Device,
        protection: Protection,
        data: BufferData,
        replies: &[Reply],
    ) -> (step: Step<Buffer>)
        ensures
            step@ == self.create_buffer_step(*this, protection, data, replies@),
    {
        match self.backend {
            Backend::Cl => cl::device::create_buffer(this, protection, data, replies),
            Backend::Gl => gl::device::create_buffer(this, protection, data, replies),
        }
    }

    /// The step of `create_image`, as the backend of this table takes it.
    pub open spec fn create_image_step(
        self,
        this: Device,
        format: Format,
        protection: Protection,
        size: Size2D,
        replies: Seq<Reply>,
    ) -> StepView<Image> {
        match self.backend {
            Backend::Cl => cl::device::create_image_step(this, format, protection, size, replies),
            Backend::Gl => gl::device::create_image_step(this, format, protection, size, replies),
        }
    }

    /// The entry that creates an image.
    pub fn create_image(
        &self,
        this: &Device,
        format: Format,
        protection: Protection,
        size: &Size2D,
        replies: &[Reply],
    ) -> (step: Step<Image>)
        ensures
            step@ == self.create_image_step(*this, format, protection, *size, replies@),
    {
        match self.backend {
            Backend::Cl => cl::device::create_image(this, format, protection, size, replies),
            Backend::Gl => gl::device::create_image(this, format, protection, size, replies),
        }
    }

    /// The step of `create_texture`, as the backend of this table takes it.
    pub open spec fn create_texture_step(
        self,
        this: Device,
        format: Format,
        protection: Protection,
        size: Size2D,
        replies: Seq<Reply>,
    ) -> StepView<Texture> {
        match self.backend {
            Backend::Cl => cl::device::create_texture_step(this, format, protection, size, replies),
            Backend::Gl => gl::device::create_texture_step(this, format, protection, size, replies),
        }
    }

    /// The entry that creates a texture.
    pub fn create_texture(
        &self,
        this: &Device,
        format: Format,
        protection: Protection,
        size: &Size2D,
        replies: &[Reply],
    ) -> (step: Step<Texture>)
        ensures
            step@ == self.create_texture_step(*this, format, protection, *size, replies@),
    {
        match self.backend {
            Backend::Cl => cl::device::create_texture(this, format, protection, size, replies),
            Backend::Gl => gl::device::create_texture(this, format, protection, size, replies),
        }
    }
}

impl Device {
    /// Makes the handle of the native context `data`, on which `functions`
    /// operate.
    pub fn from_raw_data(data: usize, functions: DeviceFunctions) -> (device: Device)
        ensures
            device == (Device { data, functions }),
    {
        Device { data, functions }
    }

    /// Returns the native context.
    pub fn data(&self) -> (data: usize)
        ensures
            data == self.data,
    {
        self.data
    }

    /// The step of `destroy`: that of the entry of the handle's table.
    pub open spec fn destroy_step(self, replies: Seq<Reply>) -> StepView<()> {
        self.functions.destroy_step(self, replies)
    }

    /// Releases the native context of this device. The handle is of no use afterwards: the program
    /// calls this once, when it drops the handle.
    pub fn destroy(&self, replies: &[Reply]) -> (step: Step<()>)
        ensures
            step@ == self.destroy_step(replies@),
    {
        self.functions.destroy(self, replies)
    }

    /// The step of `create_queue`: that of the entry of the handle's table.
    pub open spec fn create_queue_step(self, replies: Seq<Reply>) -> StepView<Queue> {
        self.functions.create_queue_step(self, replies)
    }

    /// Creates a new command queue on which jobs can be submitted.
    pub fn create_queue(&self, replies: &[Reply]) -> (step: Step<Queue>)
        ensures
            step@ == self.create_queue_step(replies@),
    {
        self.functions.create_queue(self, replies)
    }

    /// The step of `create_program`: that of the entry of the handle's table.
    pub open spec fn create_program_step(self, source: &str, replies: Seq<Reply>) -> StepView<Program> {
        self.functions.create_program_step(self, source, replies)
    }

    /// Creates, compiles, and links a new compute program to execute on the GPU with the given
    /// source.
    ///
    /// The supplied source must conform to the result of `Instance::shading_language()`.
    pub fn create_program(&self, source: &str, replies: &[Reply]) -> (step: Step<Program>)
        ensures
            step@ == self.create_program_step(source, replies@),
    {
        self.functions.create_program(self, source, replies)
    }

    /// The step of `create_buffer`: that of the entry of the handle's table.
    pub open spec fn create_buffer_step(
        self,
        protection: Protection,
        data: BufferData,
        replies: Seq<Reply>,
    ) -> StepView<Buffer> {
        self.functions.create_buffer_step(self, protection, data, replies)
    }

    /// Creates a new block of GPU memory with the given GPU-side protection, initialized with the
    /// supplied data.
    pub fn create_buffer(
        &self,
        protection: Protection,
        data: BufferData,
        replies: &[Reply],
    ) -> (step: Step<Buffer>)
        ensures
            step@ == self.create_buffer_step(protection, data, replies@),
    {
        self.functions.create_buffer(self, protection, data, replies)
    }

    /// The step of `create_image`: that of the entry of the handle's table.
    pub open spec fn create_image_step(
        self,
        format: Format,
        protection: Protection,
        size: Size2D,
        replies: Seq<Reply>,
    ) -> StepView<Image> {
        self.functions.create_image_step(self, format, protection, size, replies)
    }

    /// Creates a new image of the given format, GPU-side protection, and size.
    ///
    /// The initial contents of the image are undefined.
    pub fn create_image(
        &self,
        format: Format,
        protection: Protection,
        size: &Size2D,
        replies: &[Reply],
    ) -> (step: Step<Image>)
        ensures
            step@ == self.create_image_step(format, protection, *size, replies@),
    {
        self.functions.create_image(self, format, protection, size, replies)
    }

    /// The step of `create_texture`: that of the entry of the handle's table.
    pub open spec fn create_texture_step(
        self,
        format: Format,
        protection: Protection,
        size: Size2D,
        replies: Seq<Reply>,
    ) -> StepView<Texture> {
        self.functions.create_texture_step(self, format, protection, size, replies)
    }

    /// Creates a new texture of the given format, GPU-side protection, and size.
    ///
    /// The initial contents of the texture are undefined.
    pub fn create_texture(
        &self,
        format: Format,
        protection: Protection,
        size: &Size2D,
        replies: &[Reply],
    ) -> (step: Step<Texture>)
        ensures
            step@ == self.create_texture_step(format, protection, *size, replies@),
    {
        self.functions.create_texture(self, format, protection, size, replies)
    }
}

/// Destroying a device releases its native context exactly once. On the
/// OpenCL backend every run of the operation consists of one call, which is
/// that release; on the OpenGL backend the device is the current context,
/// which is not this library's to release, and a run consists of no call.
/// The operation ends well whatever the driver replies.
pub proof fn destroy_releases_once(device: Device, replies: Seq<Reply>)
    requires
        complete(|r: Seq<Reply>| device.destroy_step(r), replies),
    ensures
        device.functions.backend == Backend::Cl ==> replies.len() == 1 && call_at(
            |r: Seq<Reply>| device.destroy_step(r),
            replies,
            0,
        ) == Call::Cl(ClCall::ReleaseContext { context: device.data }),
        device.functions.backend == Backend::Gl ==> replies.len() == 0,
        device.destroy_step(replies) == done(()),
{
    let step = |r: Seq<Reply>| device.destroy_step(r);
    assert(step(replies) is Done);
    if replies.len() > 0 {
        assert(step(replies.take(0)) is Call);
    }
    if replies.len() > 1 {
        assert(step(replies.take(1)) is Call);
    }
}

/// What a device creates belongs to the backend of the device: a handle
/// never mixes the operations of two backends.
pub proof fn creations_keep_backend(
    device: Device,
    source: &str,
    protection: Protection,
    data: BufferData,
    format: Format,
    size: Size2D,
    replies: Seq<Reply>,
)
    ensures
        device.create_queue_step(replies) matches StepView::Done(Ok(queue))
            ==> queue.functions.backend == device.functions.backend,
        device.create_program_step(source, replies) matches StepView::Done(Ok(program))
            ==> program.functions.backend == device.functions.backend,
        device.create_buffer_step(protection, data, replies) matches StepView::Done(Ok(buffer))
            ==> buffer.functions.backend == device.functions.backend,
        device.create_image_step(format, protection, size, replies) matches StepView::Done(Ok(image))
            ==> image.functions.backend == device.functions.backend,
        device.create_texture_step(format, protection, size, replies) matches StepView::Done(
            Ok(texture),
        ) ==> texture.functions.backend == device.functions.backend,
{
}

/// Every operation on a device ends: it is finished once the driver has
/// replied often enough, whatever it replied. No operation takes more than
/// twelve calls.
pub proof fn operations_finish(
    device: Device,
    source: &str,
    protection: Protection,
    data: BufferData,
    format: Format,
    size: Size2D,
    replies: Seq<Reply>,
)
    ensures
        replies.len() >= 1 ==> device.destroy_step(replies) is Done,
        replies.len() >= 2 ==> device.create_queue_step(replies) is Done,
        replies.len() >= 5 ==> device.create_buffer_step(protection, data, replies) is Done
            && device.create_image_step(format, protection, size, replies) is Done
            && device.create_texture_step(format, protection, size, replies) is Done,
        replies.len() >= 12 ==> device.create_program_step(source, replies) is Done,
{
}

/// A buffer is asked for as it was given: the call that allocates the
/// store, the first call on the OpenCL backend and the third on the OpenGL
/// backend, names exactly the size of the data, and carries the host's bytes
/// unchanged where the data hold them and no byte where they do not. On the
/// OpenGL backend the call is made where the driver gave a buffer and can be
/// told the size.
pub proof fn buffer_is_asked_for_as_given(
    device: Device,
    protection: Protection,
    data: BufferData,
    replies: Seq<Reply>,
)
    requires
        device.functions.backend == Backend::Cl ==> replies.len() == 0,
        device.functions.backend == Backend::Gl ==> replies.len() == 2 && replies[0].object != 0
            && data.size() <= isize::MAX,
    ensures
        device.create_buffer_step(protection, data, replies) matches StepView::Call(request) && (
        match request.call {
            Call::Cl(ClCall::CreateBuffer { size, .. }) => size == data.size(),
            Call::Gl(GlCall::BufferData { size, initialized, .. }) => size == data.size()
                && initialized == (data is HostAllocated),
            _ => false,
        }) && request.bytes == (match data.contents() {
            Some(bytes) => bytes,
            None => Seq::empty(),
        }),
{
}

} // verus!
