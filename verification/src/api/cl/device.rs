//! Devices of the OpenCL backend.

use vstd::prelude::*;
use vstd::string::StringSliceAdditionalSpecFns;
use crate::api::cl::call::{
    ClCall, BUILD_LOG_CAPACITY, CL_CONTEXT_DEVICES, CL_FLOAT, CL_MEM_COPY_HOST_PTR, CL_MEM_READ_ONLY,
    CL_MEM_READ_WRITE, CL_MEM_WRITE_ONLY, CL_PROGRAM_BUILD_LOG, CL_QUEUE_PROFILING_ENABLE, CL_R,
    CL_RGBA, CL_SUCCESS, CL_UNORM_INT8,
};
use crate::api::surface::SurfaceCall;
use crate::backend::Backend;
use crate::buffer::{Buffer, BufferData, BufferFunctions, Protection};
use crate::device::Device;
use crate::error::{log_text, message_from_log, Error, ErrorView};
use crate::image::{Format, Image, ImageFunctions, Size2D};
use crate::native::{ask, ask_with, call_at, complete, done, failed, Call, Reply, Step, StepView};
use crate::program::{Program, ProgramFunctions};
use crate::queue::{Queue, QueueFunctions};
use crate::texture::{Texture, TextureFunctions};

verus! {

/// The memory flags that ask the driver for `protection`.
pub open spec fn mem_flags(protection: Protection) -> u64 {
    match protection {
        Protection::ReadOnly => CL_MEM_READ_ONLY,
        Protection::WriteOnly => CL_MEM_WRITE_ONLY,
        Protection::ReadWrite => CL_MEM_READ_WRITE,
    }
}

/// The memory flags of a buffer that is made with `protection` from `data`:
/// host data are copied in.
pub open spec fn buffer_flags(protection: Protection, data: BufferData) -> u64 {
    match data {
        BufferData::HostAllocated(_) => mem_flags(protection) | CL_MEM_COPY_HOST_PTR,
        BufferData::Uninitialized(_) => mem_flags(protection),
    }
}

/// The bytes that are handed to the driver with the call that makes a buffer
/// from `data`.
pub open spec fn host_bytes(data: BufferData) -> Seq<u8> {
    match data {
        BufferData::HostAllocated(host) => host.0@,
        BufferData::Uninitialized(_) => Seq::empty(),
    }
}

/// The channel order and the channel data type of an image of `format`.
pub open spec fn image_format(format: Format) -> (u32, u32) {
    match format {
        Format::R8 => (CL_R, CL_UNORM_INT8),
        Format::RGBA8 => (CL_RGBA, CL_UNORM_INT8),
        Format::R32F => (CL_R, CL_FLOAT),
    }
}

/// The image format that has the channel order `order` and the channel data
/// type `data_type`.
pub open spec fn format_of(order: u32, data_type: u32) -> Option<Format> {
    if order == CL_R && data_type == CL_UNORM_INT8 {
        Some(Format::R8)
    } else if order == CL_R && data_type == CL_FLOAT {
        Some(Format::R32F)
    } else if order == CL_RGBA && data_type == CL_UNORM_INT8 {
        Some(Format::RGBA8)
    } else {
        None
    }
}

/// The log that the driver wrote: as many bytes of the buffer as the driver
/// reports, and the whole buffer where it reports more.
pub open spec fn build_log(reply: Reply) -> Seq<u8> {
    if reply.size <= reply.bytes@.len() {
        reply.bytes@.subrange(0, reply.size as int)
    } else {
        reply.bytes@
    }
}

/// The step of an operation that has failed with `failure` after it made the
/// program `program`: the program is released first. `answered` is the number
/// of replies since the failure.
pub open spec fn release_program_then(program: usize, answered: int, failure: ErrorView) -> StepView<
    Program,
> {
    if answered == 0 {
        ask(Call::Cl(ClCall::ReleaseProgram { program }))
    } else {
        StepView::Done(Err(failure))
    }
}

/// Releases the native context: one call, whose reply is not looked at.
pub open spec fn destroy_step(this: Device, replies: Seq<Reply>) -> StepView<()> {
    if replies.len() == 0 {
        ask(Call::Cl(ClCall::ReleaseContext { context: this.data }))
    } else {
        done(())
    }
}

/// Asks for the device of the context and creates a command queue on it,
/// with profiling enabled.
pub open spec fn create_queue_step(this: Device, replies: Seq<Reply>) -> StepView<Queue> {
    if replies.len() == 0 {
        ask(Call::Cl(ClCall::GetContextInfo { context: this.data, parameter: CL_CONTEXT_DEVICES }))
    } else if replies[0].integer != CL_SUCCESS {
        failed()
    } else if replies.len() == 1 {
        ask(
            Call::Cl(
                ClCall::CreateCommandQueue {
                    context: this.data,
                    device: replies[0].object,
                    properties: CL_QUEUE_PROFILING_ENABLE,
                },
            ),
        )
    } else if replies[1].object != 0 {
        done(Queue { data: replies[1].object, functions: QueueFunctions { backend: Backend::Cl } })
    } else {
        failed()
    }
}

/// Creates a program from the source, builds it for the device of the
/// context and takes its one kernel, which is the handle's native data. A
/// build that fails ends with the build log as the message of
/// `CompileFailed`. Whatever fails after the program was created, the program
/// is released before the operation ends.
pub open spec fn create_program_step(this: Device, source: &str, replies: Seq<Reply>) -> StepView<
    Program,
> {
    if replies.len() == 0 {
        ask_with(
            Call::Cl(ClCall::CreateProgramWithSource { context: this.data }),
            source.spec_bytes(),
        )
    } else if replies[0].object == 0 {
        failed()
    } else if replies.len() == 1 {
        ask(Call::Cl(ClCall::GetContextInfo { context: this.data, parameter: CL_CONTEXT_DEVICES }))
    } else if replies[1].integer != CL_SUCCESS {
        release_program_then(replies[0].object, replies.len() - 2, ErrorView::Failed)
    } else if replies.len() == 2 {
        ask(Call::Cl(ClCall::BuildProgram { program: replies[0].object, device: replies[1].object }))
    } else if replies[2].integer != CL_SUCCESS {
        if replies.len() == 3 {
            ask(
                Call::Cl(
                    ClCall::GetProgramBuildInfo {
                        program: replies[0].object,
                        device: replies[1].object,
                        parameter: CL_PROGRAM_BUILD_LOG,
                        capacity: BUILD_LOG_CAPACITY,
                        size: (BUILD_LOG_CAPACITY - 1) as usize,
                    },
                ),
            )
        } else {
            release_program_then(
                replies[0].object,
                replies.len() - 4,
                ErrorView::CompileFailed(log_text(build_log(replies[3]))),
            )
        }
    } else if replies.len() == 3 {
        ask(Call::Cl(ClCall::CreateKernelsInProgram { program: replies[0].object }))
    } else if replies[3].integer != CL_SUCCESS {
        release_program_then(replies[0].object, replies.len() - 4, ErrorView::Failed)
    } else {
        done(Program { data: replies[3].object, functions: ProgramFunctions { backend: Backend::Cl } })
    }
}

/// Creates a buffer of the size of `data`, with the host's bytes where
/// `data` holds them.
pub open spec fn create_buffer_step(
    this: Device,
    protection: Protection,
    data: BufferData,
    replies: Seq<Reply>,
) -> StepView<Buffer> {
    if replies.len() == 0 {
        ask_with(
            Call::Cl(
                ClCall::CreateBuffer {
                    context: this.data,
                    flags: buffer_flags(protection, data),
                    size: data.size(),
                },
            ),
            host_bytes(data),
        )
    } else if replies[0].object != 0 {
        done(Buffer { data: replies[0].object, functions: BufferFunctions { backend: Backend::Cl } })
    } else {
        failed()
    }
}

/// The native data of an image that is made of `size` pixels of `format`
/// with `protection`: its memory object and the shared surface that backs
/// it. The surface is allocated first; the operation fails at once where the
/// allocator gives none. Then the image is created from the surface; where
/// that fails, the surface is released before the operation ends.
pub open spec fn create_storage_step(
    this: Device,
    format: Format,
    protection: Protection,
    size: Size2D,
    replies: Seq<Reply>,
) -> StepView<[usize; 2]> {
    if replies.len() == 0 {
        ask(
            Call::Surface(
                SurfaceCall::Create {
                    width: size.width,
                    height: size.height,
                    bytes_per_element: format.spec_bytes_per_element(),
                },
            ),
        )
    } else if replies[0].object == 0 {
        failed()
    } else if replies.len() == 1 {
        ask(
            Call::Cl(
                ClCall::CreateImageFromSurface {
                    context: this.data,
                    flags: mem_flags(protection),
                    channel_order: image_format(format).0,
                    channel_data_type: image_format(format).1,
                    width: size.width as usize,
                    height: size.height as usize,
                    surface: replies[0].object,
                },
            ),
        )
    } else if replies[1].integer == CL_SUCCESS && replies[1].object != 0 {
        done([replies[1].object, replies[0].object])
    } else if replies.len() == 2 {
        ask(Call::Surface(SurfaceCall::Release { surface: replies[0].object }))
    } else {
        failed()
    }
}

/// Creates an image of `size` pixels of `format`, on a shared surface.
pub open spec fn create_image_step(
    this: Device,
    format: Format,
    protection: Protection,
    size: Size2D,
    replies: Seq<Reply>,
) -> StepView<Image> {
    match create_storage_step(this, format, protection, size, replies) {
        StepView::Call(request) => StepView::Call(request),
        StepView::Done(Ok(data)) => done(
            Image { data, functions: ImageFunctions { backend: Backend::Cl } },
        ),
        StepView::Done(Err(error)) => StepView::Done(Err(error)),
    }
}

/// Creates a texture of `size` pixels of `format`, on a shared surface.
pub open spec fn create_texture_step(
    this: Device,
    format: Format,
    protection: Protection,
    size: Size2D,
    replies: Seq<Reply>,
) -> StepView<Texture> {
    match create_storage_step(this, format, protection, size, replies) {
        StepView::Call(request) => StepView::Call(request),
        StepView::Done(Ok(data)) => done(
            Texture { data, functions: TextureFunctions { backend: Backend::Cl } },
        ),
        StepView::Done(Err(error)) => StepView::Done(Err(error)),
    }
}

/// Returns the memory flags that ask the driver for `protection`.
pub fn protection_to_mem_flags(protection: Protection) -> (flags: u64)
    ensures
        flags == mem_flags(protection),
{
    match protection {
        Protection::ReadOnly => CL_MEM_READ_ONLY,
        Protection::WriteOnly => CL_MEM_WRITE_ONLY,
        Protection::ReadWrite => CL_MEM_READ_WRITE,
    }
}

/// Returns the channel order and the channel data type of an image of
/// `format`.
pub fn image_format_of(format: Format) -> (pair: (u32, u32))
    ensures
        pair == image_format(format),
{
    match format {
        Format::R8 => (CL_R, CL_UNORM_INT8),
        Format::RGBA8 => (CL_RGBA, CL_UNORM_INT8),
        Format::R32F => (CL_R, CL_FLOAT),
    }
}

/// Returns the image format that has the channel order `order` and the
/// channel data type `data_type`, if there is one.
pub fn format_from(order: u32, data_type: u32) -> (format: Option<Format>)
    ensures
        format == format_of(order, data_type),
{
    if order == CL_R && data_type == CL_UNORM_INT8 {
        Some(Format::R8)
    } else if order == CL_R && data_type == CL_FLOAT {
        Some(Format::R32F)
    } else if order == CL_RGBA && data_type == CL_UNORM_INT8 {
        Some(Format::RGBA8)
    } else {
        None
    }
}

/// Every image format is found again from its channel order and its channel
/// data type, and no other pair names a format.
pub proof fn image_format_round_trip(format: Format, order: u32, data_type: u32)
    ensures
        format_of(image_format(format).0, image_format(format).1) == Some(format),
        format_of(order, data_type) == Some(format) ==> (order, data_type) == image_format(format),
{
}

/// Returns the log that the driver wrote.
pub fn build_log_of(reply: &Reply) -> (log: Vec<u8>)
    ensures
        log@ == build_log(*reply),
{
    if reply.size <= reply.bytes.len() {
        vstd::slice::slice_to_vec(vstd::slice::slice_subrange(reply.bytes.as_slice(), 0, reply.size))
    } else {
        vstd::slice::slice_to_vec(reply.bytes.as_slice())
    }
}

/// Releases `program` and then ends the operation with `failure`.
pub fn release_program(program: usize, answered: usize, failure: Error) -> (step: Step<Program>)
    ensures
        step@ == release_program_then(program, answered as int, failure@),
{
    if answered == 0 {
        Step::ask(Call::Cl(ClCall::ReleaseProgram { program }))
    } else {
        Step::Done(Err(failure))
    }
}

/// Releases the native context.
pub fn destroy(this: &Device, replies: &[Reply]) -> (step: Step<()>)
    ensures
        step@ == destroy_step(*this, replies@),
{
    if replies.len() == 0 {
        Step::ask(Call::Cl(ClCall::ReleaseContext { context: this.data }))
    } else {
        Step::done(())
    }
}

/// Creates a new command queue on which jobs can be submitted.
pub fn create_queue(this: &Device, replies: &[Reply]) -> (step: Step<Queue>)
    ensures
        step@ == create_queue_step(*this, replies@),
{
    if replies.len() == 0 {
        Step::ask(
            Call::Cl(ClCall::GetContextInfo { context: this.data, parameter: CL_CONTEXT_DEVICES }),
        )
    } else if replies[0].integer != CL_SUCCESS {
        Step::failed()
    } else if replies.len() == 1 {
        Step::ask(
            Call::Cl(
                ClCall::CreateCommandQueue {
                    context: this.data,
                    device: replies[0].object,
                    properties: CL_QUEUE_PROFILING_ENABLE,
                },
            ),
        )
    } else if replies[1].object != 0 {
        Step::done(Queue { data: replies[1].object, functions: QueueFunctions { backend: Backend::Cl } })
    } else {
        Step::failed()
    }
}

/// Creates, compiles, and links a new compute program to execute on the GPU with the given
/// source.
pub fn create_program(this: &Device, source: &str, replies: &[Reply]) -> (step: Step<Program>)
    ensures
        step@ == create_program_step(*this, source, replies@),
{
    if replies.len() == 0 {
        Step::ask_with(
            Call::Cl(ClCall::CreateProgramWithSource { context: this.data }),
            vstd::slice::slice_to_vec(source.as_bytes()),
        )
    } else if replies[0].object == 0 {
        Step::failed()
    } else if replies.len() == 1 {
        Step::ask(
            Call::Cl(ClCall::GetContextInfo { context: this.data, parameter: CL_CONTEXT_DEVICES }),
        )
    } else if replies[1].integer != CL_SUCCESS {
        release_program(replies[0].object, replies.len() - 2, Error::Failed)
    } else if replies.len() == 2 {
        Step::ask(
            Call::Cl(ClCall::BuildProgram { program: replies[0].object, device: replies[1].object }),
        )
    } else if replies[2].integer != CL_SUCCESS {
        if replies.len() == 3 {
            Step::ask(
                Call::Cl(
                    ClCall::GetProgramBuildInfo {
                        program: replies[0].object,
                        device: replies[1].object,
                        parameter: CL_PROGRAM_BUILD_LOG,
                        capacity: BUILD_LOG_CAPACITY,
                        size: BUILD_LOG_CAPACITY - 1,
                    },
                ),
            )
        } else {
            let message = message_from_log(build_log_of(&replies[3]));
            release_program(replies[0].object, replies.len() - 4, Error::CompileFailed(message))
        }
    } else if replies.len() == 3 {
        Step::ask(Call::Cl(ClCall::CreateKernelsInProgram { program: replies[0].object }))
    } else if replies[3].integer != CL_SUCCESS {
        release_program(replies[0].object, replies.len() - 4, Error::Failed)
    } else {
        Step::done(
            Program { data: replies[3].object, functions: ProgramFunctions { backend: Backend::Cl } },
        )
    }
}

/// Creates a new block of GPU memory with the given GPU-side protection, initialized with the
/// supplied data.
pub fn create_buffer(this: &Device, protection: Protection, data: BufferData, replies: &[Reply]) -> (step:
    Step<Buffer>)
    ensures
        step@ == create_buffer_step(*this, protection, data, replies@),
{
    if replies.len() == 0 {
        let flags = protection_to_mem_flags(protection);
        match data {
            BufferData::HostAllocated(host) => Step::ask_with(
                Call::Cl(
                    ClCall::CreateBuffer {
                        context: this.data,
                        flags: flags | CL_MEM_COPY_HOST_PTR,
                        size: host.size(),
                    },
                ),
                vstd::slice::slice_to_vec(host.as_slice()),
            ),
            BufferData::Uninitialized(size) => Step::ask_with(
                Call::Cl(ClCall::CreateBuffer { context: this.data, flags, size }),
                Vec::new(),
            ),
        }
    } else if replies[0].object != 0 {
        Step::done(Buffer { data: replies[0].object, functions: BufferFunctions { backend: Backend::Cl } })
    } else {
        Step::failed()
    }
}

/// Makes the native data of an image.
pub fn create_storage(
    this: &Device,
    format: Format,
    protection: Protection,
    size: &Size2D,
    replies: &[Reply],
) -> (step: Step<[usize; 2]>)
    ensures
        step@ == create_storage_step(*this, format, protection, *size, replies@),
{
    if replies.len() == 0 {
        Step::ask(
            Call::Surface(
                SurfaceCall::Create {
                    width: size.width,
                    height: size.height,
                    bytes_per_element: format.bytes_per_element(),
                },
            ),
        )
    } else if replies[0].object == 0 {
        Step::failed()
    } else if replies.len() == 1 {
        let (channel_order, channel_data_type) = image_format_of(format);
        Step::ask(
            Call::Cl(
                ClCall::CreateImageFromSurface {
                    context: this.data,
                    flags: protection_to_mem_flags(protection),
                    channel_order,
                    channel_data_type,
                    width: size.width as usize,
                    height: size.height as usize,
                    surface: replies[0].object,
                },
            ),
        )
    } else if replies[1].integer == CL_SUCCESS && replies[1].object != 0 {
        Step::done([replies[1].object, replies[0].object])
    } else if replies.len() == 2 {
        Step::ask(Call::Surface(SurfaceCall::Release { surface: replies[0].object }))
    } else {
        Step::failed()
    }
}

/// Creates a new image of the given format, GPU-side protection, and size.
pub fn create_image(
    this: &Device,
    format: Format,
    protection: Protection,
    size: &Size2D,
    replies: &[Reply],
) -> (step: Step<Image>)
    ensures
        step@ == create_image_step(*this, format, protection, *size, replies@),
{
    match create_storage(this, format, protection, size, replies) {
        Step::Call(request) => Step::Call(request),
        Step::Done(Ok(data)) => Step::done(
            Image { data, functions: ImageFunctions { backend: Backend::Cl } },
        ),
        Step::Done(Err(error)) => Step::Done(Err(error)),
    }
}

/// Creates a new texture of the given format, GPU-side protection, and size.
pub fn create_texture(
    this: &Device,
    format: Format,
    protection: Protection,
    size: &Size2D,
    replies: &[Reply],
) -> (step: Step<Texture>)
    ensures
        step@ == create_texture_step(*this, format, protection, *size, replies@),
{
    match create_storage(this, format, protection, size, replies) {
        Step::Call(request) => Step::Call(request),
        Step::Done(Ok(data)) => Step::done(
            Texture { data, functions: TextureFunctions { backend: Backend::Cl } },
        ),
        Step::Done(Err(error)) => Step::Done(Err(error)),
    }
}

/// A build that the driver fails is reported: where the program was created
/// and its device was found, and the driver fails the build, every run ends
/// with `CompileFailed` and the build log as its message, and with no
/// program.
pub proof fn failed_build_is_reported(this: Device, source: &str, replies: Seq<Reply>)
    requires
        complete(|r: Seq<Reply>| create_program_step(this, source, r), replies),
        replies.len() >= 3,
        replies[0].object != 0,
        replies[1].integer == CL_SUCCESS,
        replies[2].integer != CL_SUCCESS,
    ensures
        replies.len() == 5,
        create_program_step(this, source, replies) == StepView::<Program>::Done(
            Err(ErrorView::CompileFailed(log_text(build_log(replies[3])))),
        ),
{
    let step = |r: Seq<Reply>| create_program_step(this, source, r);
    assert(step(replies) is Done);
    if replies.len() > 5 {
        let shorter = replies.take(5);
        assert(step(shorter) is Call);
        assert(shorter[0] == replies[0] && shorter[1] == replies[1] && shorter[2] == replies[2]);
    }
}

/// A creation of a program that fails after the program object was made
/// releases that object: the last call of the run is its release.
pub proof fn failed_program_is_released(this: Device, source: &str, replies: Seq<Reply>)
    requires
        complete(|r: Seq<Reply>| create_program_step(this, source, r), replies),
        create_program_step(this, source, replies) is Done,
        create_program_step(this, source, replies)->Done_0 is Err,
        replies.len() > 0,
        replies[0].object != 0,
    ensures
        call_at(|r: Seq<Reply>| create_program_step(this, source, r), replies, replies.len() - 1)
            == Call::Cl(ClCall::ReleaseProgram { program: replies[0].object }),
{
    let step = |r: Seq<Reply>| create_program_step(this, source, r);
    let shorter = replies.take(replies.len() - 1);
    assert(step(shorter) is Call);
    assert(forall|i: int| 0 <= i < shorter.len() ==> shorter[i] == replies[i]);
}

/// A creation of an image that fails after its surface was allocated gives
/// up that surface: the run consists of three calls, and the last of them
/// releases the surface.
pub proof fn failed_image_gives_up_surface(
    this: Device,
    format: Format,
    protection: Protection,
    size: Size2D,
    replies: Seq<Reply>,
)
    requires
        complete(|r: Seq<Reply>| create_image_step(this, format, protection, size, r), replies),
        create_image_step(this, format, protection, size, replies)->Done_0 is Err,
        replies.len() >= 1,
        replies[0].object != 0,
    ensures
        replies.len() == 3,
        call_at(|r: Seq<Reply>| create_image_step(this, format, protection, size, r), replies, 2)
            == Call::Surface(SurfaceCall::Release { surface: replies[0].object }),
{
    let step = |r: Seq<Reply>| create_image_step(this, format, protection, size, r);
    assert(step(replies) is Done);
    if replies.len() > 3 {
        let shorter = replies.take(3);
        assert(step(shorter) is Call);
        assert(shorter[0] == replies[0] && shorter[1] == replies[1]);
    }
    if replies.len() == 3 {
        let shorter = replies.take(2);
        assert(shorter[0] == replies[0] && shorter[1] == replies[1]);
    }
}

} // verus!
