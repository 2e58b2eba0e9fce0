//! Devices of the OpenGL backend.

use vstd::prelude::*;
use vstd::string::StringSliceAdditionalSpecFns;
use crate::api::gl::call::{
    no_error, GlCall, NO_ERROR, COMPILE_STATUS, COMPUTE_SHADER, COPY_WRITE_BUFFER, DYNAMIC_DRAW, INFO_LOG_LENGTH,
    LINK_STATUS, TEXTURE_2D, TEXTURE_RECTANGLE, TRUE,
};
use crate::backend::Backend;
use crate::buffer::{Buffer, BufferData, BufferFunctions, Protection};
use crate::device::Device;
use crate::error::{log_text, message_from_log, Error, ErrorView};
use crate::image::{Format, Image, ImageFunctions, Size2D};
use crate::native::{ask, ask_with, call_at, complete, done, failed, Call, Reply, Step, StepView};
use crate::program::{Program, ProgramFunctions};
use crate::queue::{Queue, QueueFunctions};
use crate::texture::{Texture, TextureFunctions};

verus! {

/// The length of the information log that `reply` reports: no log where the
/// driver reports a negative length.
pub open spec fn log_length(reply: Reply) -> i32 {
    if reply.integer < 0 {
        0
    } else {
        reply.integer
    }
}

/// The bytes that are handed to the driver with the call that fills a buffer
/// from `data`.
pub open spec fn host_bytes(data: BufferData) -> Seq<u8> {
    match data {
        BufferData::HostAllocated(host) => host.0@,
        BufferData::Uninitialized(_) => Seq::empty(),
    }
}

/// Nothing is to release: a device of this backend is the current context.
pub open spec fn destroy_step(this: Device, replies: Seq<Reply>) -> StepView<()> {
    done(())
}

/// The queue of the current context, which needs no call.
pub open spec fn create_queue_step(this: Device, replies: Seq<Reply>) -> StepView<Queue> {
    done(Queue { data: 0, functions: QueueFunctions { backend: Backend::Gl } })
}

/// The calls that follow a compilation that failed: the length of the log is
/// asked for, the log is read and the shader is deleted; the log is the
/// message of `CompileFailed`. `answered` is the number of replies since the
/// compile status, and `replies` are all the replies.
pub open spec fn compile_failed_step(shader: u32, answered: int, replies: Seq<Reply>) -> StepView<
    Program,
> {
    if answered == 0 {
        ask(Call::Gl(GlCall::GetShaderiv { shader, parameter: INFO_LOG_LENGTH }))
    } else if answered == 1 {
        ask(
            Call::Gl(
                GlCall::GetShaderInfoLog {
                    shader,
                    max_length: log_length(replies[4]),
                    capacity: (log_length(replies[4]) + 1) as usize,
                },
            ),
        )
    } else if answered == 2 {
        ask(Call::Gl(GlCall::DeleteShader { shader }))
    } else {
        StepView::Done(Err(ErrorView::CompileFailed(log_text(replies[5].bytes@))))
    }
}

/// The calls that follow a link that failed: the length of the log is asked
/// for, the log is read, and the program and the shader are deleted; the log
/// is the message of `LinkFailed`. `answered` is the number of replies since
/// the link status, and `replies` are all the replies.
pub open spec fn link_failed_step(shader: u32, program: u32, answered: int, replies: Seq<Reply>) -> StepView<
    Program,
> {
    if answered == 0 {
        ask(Call::Gl(GlCall::GetProgramiv { program, parameter: INFO_LOG_LENGTH }))
    } else if answered == 1 {
        ask(
            Call::Gl(
                GlCall::GetProgramInfoLog {
                    program,
                    max_length: log_length(replies[8]),
                    capacity: (log_length(replies[8]) + 1) as usize,
                },
            ),
        )
    } else if answered == 2 {
        ask(Call::Gl(GlCall::DeleteProgram { program }))
    } else if answered == 3 {
        ask(Call::Gl(GlCall::DeleteShader { shader }))
    } else {
        StepView::Done(Err(ErrorView::LinkFailed(log_text(replies[9].bytes@))))
    }
}

/// Compiles the source as a compute shader and links the shader into a
/// program, whose name is the handle's native data. A compilation or a link
/// that fails ends with the driver's log as the message of the error, after
/// what was created has been deleted. The operation fails where the driver
/// gives no shader, and, after the shader has been deleted, where it gives
/// no program. A source of more bytes than the driver can be told fails
/// before any call.
pub open spec fn create_program_step(this: Device, source: &str, replies: Seq<Reply>) -> StepView<
    Program,
> {
    if source.spec_bytes().len() > i32::MAX {
        failed()
    } else if replies.len() == 0 {
        ask(Call::Gl(GlCall::CreateShader { kind: COMPUTE_SHADER }))
    } else if replies[0].object == 0 {
        failed()
    } else {
        let shader = replies[0].object as u32;
        if replies.len() == 1 {
            ask_with(
                Call::Gl(GlCall::ShaderSource { shader, length: source.spec_bytes().len() as i32 }),
                source.spec_bytes(),
            )
        } else if replies.len() == 2 {
            ask(Call::Gl(GlCall::CompileShader { shader }))
        } else if replies.len() == 3 {
            ask(Call::Gl(GlCall::GetShaderiv { shader, parameter: COMPILE_STATUS }))
        } else if replies[3].integer != TRUE {
            compile_failed_step(shader, replies.len() - 4, replies)
        } else if replies.len() == 4 {
            ask(Call::Gl(GlCall::CreateProgram))
        } else if replies[4].object == 0 {
            if replies.len() == 5 {
                ask(Call::Gl(GlCall::DeleteShader { shader }))
            } else {
                failed()
            }
        } else {
            let program = replies[4].object as u32;
            if replies.len() == 5 {
                ask(Call::Gl(GlCall::AttachShader { program, shader }))
            } else if replies.len() == 6 {
                ask(Call::Gl(GlCall::LinkProgram { program }))
            } else if replies.len() == 7 {
                ask(Call::Gl(GlCall::GetProgramiv { program, parameter: LINK_STATUS }))
            } else if replies[7].integer != TRUE {
                link_failed_step(shader, program, replies.len() - 8, replies)
            } else {
                done(
                    Program {
                        data: replies[4].object,
                        functions: ProgramFunctions { backend: Backend::Gl },
                    },
                )
            }
        }
    }
}

/// Generates a buffer, binds it and gives it a store of the size of `data`,
/// with the host's bytes where `data` holds them; then the driver is asked
/// for its error. The operation fails where the driver gives no buffer, and,
/// after the buffer has been deleted, where it reports an error of the
/// allocation. A size that the driver cannot be told fails before any call.
pub open spec fn create_buffer_step(
    this: Device,
    protection: Protection,
    data: BufferData,
    replies: Seq<Reply>,
) -> StepView<Buffer> {
    if data.size() > isize::MAX {
        failed()
    } else if replies.len() == 0 {
        ask(Call::Gl(GlCall::GenBuffers))
    } else if replies[0].object == 0 {
        failed()
    } else if replies.len() == 1 {
        ask(Call::Gl(GlCall::BindBuffer { target: COPY_WRITE_BUFFER, buffer: replies[0].object as u32 }))
    } else if replies.len() == 2 {
        ask_with(
            Call::Gl(
                GlCall::BufferData {
                    target: COPY_WRITE_BUFFER,
                    size: data.size() as isize,
                    initialized: data is HostAllocated,
                    usage: DYNAMIC_DRAW,
                },
            ),
            host_bytes(data),
        )
    } else if replies.len() == 3 {
        ask(Call::Gl(GlCall::GetError))
    } else if no_error(replies[3]) {
        done(Buffer { data: replies[0].object, functions: BufferFunctions { backend: Backend::Gl } })
    } else if replies.len() == 4 {
        ask(Call::Gl(GlCall::DeleteBuffers { buffer: replies[0].object as u32 }))
    } else {
        failed()
    }
}

/// Generates a texture, binds it to `target` and gives it one level of
/// storage of `size` pixels of `format`; then the driver is asked for its
/// error. The texture's name is the result. The operation fails where the
/// driver gives no texture, and, after the texture has been deleted, where
/// it reports an error of the allocation. A width or a height that the
/// driver cannot be told fails before any call.
pub open spec fn create_storage_step(target: u32, format: Format, size: Size2D, replies: Seq<Reply>) -> StepView<
    usize,
> {
    if size.width > i32::MAX || size.height > i32::MAX {
        failed()
    } else if replies.len() == 0 {
        ask(Call::Gl(GlCall::GenTextures))
    } else if replies[0].object == 0 {
        failed()
    } else if replies.len() == 1 {
        ask(Call::Gl(GlCall::BindTexture { target, texture: replies[0].object as u32 }))
    } else if replies.len() == 2 {
        ask(
            Call::Gl(
                GlCall::TexStorage2D {
                    target,
                    levels: 1,
                    internal_format: format.spec_gl_internal_format(),
                    width: size.width as i32,
                    height: size.height as i32,
                },
            ),
        )
    } else if replies.len() == 3 {
        ask(Call::Gl(GlCall::GetError))
    } else if no_error(replies[3]) {
        done(replies[0].object)
    } else if replies.len() == 4 {
        ask(Call::Gl(GlCall::DeleteTextures { texture: replies[0].object as u32 }))
    } else {
        failed()
    }
}

/// Creates an image of `size` pixels of `format`: a rectangle texture, which
/// keeps the number of its protection beside its name.
pub open spec fn create_image_step(
    this: Device,
    format: Format,
    protection: Protection,
    size: Size2D,
    replies: Seq<Reply>,
) -> StepView<Image> {
    match create_storage_step(TEXTURE_RECTANGLE, format, size, replies) {
        StepView::Call(request) => StepView::Call(request),
        StepView::Done(Ok(texture)) => done(
            Image {
                data: [texture, protection.index()],
                functions: ImageFunctions { backend: Backend::Gl },
            },
        ),
        StepView::Done(Err(error)) => StepView::Done(Err(error)),
    }
}

/// Creates a texture of `size` pixels of `format`: a two-dimensional
/// texture.
pub open spec fn create_texture_step(
    this: Device,
    format: Format,
    protection: Protection,
    size: Size2D,
    replies: Seq<Reply>,
) -> StepView<Texture> {
    match create_storage_step(TEXTURE_2D, format, size, replies) {
        StepView::Call(request) => StepView::Call(request),
        StepView::Done(Ok(texture)) => done(
            Texture { data: [texture, 0], functions: TextureFunctions { backend: Backend::Gl } },
        ),
        StepView::Done(Err(error)) => StepView::Done(Err(error)),
    }
}

/// Returns the length of the information log that `reply` reports.
pub fn log_length_of(reply: &Reply) -> (length: i32)
    ensures
        length == log_length(*reply),
{
    if reply.integer < 0 {
        0
    } else {
        reply.integer
    }
}

/// Asks for what follows a compilation that failed.
pub(crate) fn compile_failed(shader: u32, answered: usize, replies: &[Reply]) -> (step: Step<Program>)
    requires
        replies@.len() == answered + 4,
    ensures
        step@ == compile_failed_step(shader, answered as int, replies@),
{
    if answered == 0 {
        Step::ask(Call::Gl(GlCall::GetShaderiv { shader, parameter: INFO_LOG_LENGTH }))
    } else if answered == 1 {
        let max_length = log_length_of(&replies[4]);
        Step::ask(
            Call::Gl(
                GlCall::GetShaderInfoLog { shader, max_length, capacity: (max_length as usize) + 1 },
            ),
        )
    } else if answered == 2 {
        Step::ask(Call::Gl(GlCall::DeleteShader { shader }))
    } else {
        let log = vstd::slice::slice_to_vec(replies[5].bytes.as_slice());
        Step::Done(Err(Error::CompileFailed(message_from_log(log))))
    }
}

/// Asks for what follows a link that failed.
pub(crate) fn link_failed(shader: u32, program: u32, answered: usize, replies: &[Reply]) -> (step: Step<
    Program,
>)
    requires
        replies@.len() == answered + 8,
    ensures
        step@ == link_failed_step(shader, program, answered as int, replies@),
{
    if answered == 0 {
        Step::ask(Call::Gl(GlCall::GetProgramiv { program, parameter: INFO_LOG_LENGTH }))
    } else if answered == 1 {
        let max_length = log_length_of(&replies[8]);
        Step::ask(
            Call::Gl(
                GlCall::GetProgramInfoLog { program, max_length, capacity: (max_length as usize) + 1 },
            ),
        )
    } else if answered == 2 {
        Step::ask(Call::Gl(GlCall::DeleteProgram { program }))
    } else if answered == 3 {
        Step::ask(Call::Gl(GlCall::DeleteShader { shader }))
    } else {
        let log = vstd::slice::slice_to_vec(replies[9].bytes.as_slice());
        Step::Done(Err(Error::LinkFailed(message_from_log(log))))
    }
}

/// Nothing is to release.
pub fn destroy(this: &Device, replies: &[Reply]) -> (step: Step<()>)
    ensures
        step@ == destroy_step(*this, replies@),
{
    Step::done(())
}

/// Creates a new command queue on which jobs can be submitted.
pub fn create_queue(this: &Device, replies: &[Reply]) -> (step: Step<Queue>)
    ensures
        step@ == create_queue_step(*this, replies@),
{
    Step::done(Queue { data: 0, functions: QueueFunctions { backend: Backend::Gl } })
}

/// Creates, compiles, and links a new compute program to execute on the GPU with the given
/// source.
pub fn create_program(this: &Device, source: &str, replies: &[Reply]) -> (step: Step<Program>)
    ensures
        step@ == create_program_step(*this, source, replies@),
{
    let bytes = source.as_bytes();
    if bytes.len() > i32::MAX as usize {
        return Step::failed();
    }
    if replies.len() == 0 {
        return Step::ask(Call::Gl(GlCall::CreateShader { kind: COMPUTE_SHADER }));
    }
    if replies[0].object == 0 {
        return Step::failed();
    }
    let shader = #[verifier::truncate]
    (replies[0].object as u32);
    if replies.len() == 1 {
        Step::ask_with(
            Call::Gl(GlCall::ShaderSource { shader, length: bytes.len() as i32 }),
            vstd::slice::slice_to_vec(bytes),
        )
    } else if replies.len() == 2 {
        Step::ask(Call::Gl(GlCall::CompileShader { shader }))
    } else if replies.len() == 3 {
        Step::ask(Call::Gl(GlCall::GetShaderiv { shader, parameter: COMPILE_STATUS }))
    } else if replies[3].integer != TRUE {
        compile_failed(shader, replies.len() - 4, replies)
    } else if replies.len() == 4 {
        Step::ask(Call::Gl(GlCall::CreateProgram))
    } else if replies[4].object == 0 {
        if replies.len() == 5 {
            Step::ask(Call::Gl(GlCall::DeleteShader { shader }))
        } else {
            Step::failed()
        }
    } else {
        let program = #[verifier::truncate]
        (replies[4].object as u32);
        if replies.len() == 5 {
            Step::ask(Call::Gl(GlCall::AttachShader { program, shader }))
        } else if replies.len() == 6 {
            Step::ask(Call::Gl(GlCall::LinkProgram { program }))
        } else if replies.len() == 7 {
            Step::ask(Call::Gl(GlCall::GetProgramiv { program, parameter: LINK_STATUS }))
        } else if replies[7].integer != TRUE {
            link_failed(shader, program, replies.len() - 8, replies)
        } else {
            Step::done(
                Program { data: replies[4].object, functions: ProgramFunctions { backend: Backend::Gl } },
            )
        }
    }
}

/// Creates a new block of GPU memory with the given GPU-side protection, initialized with the
/// supplied data.
pub fn create_buffer(this: &Device, protection: Protection, data: BufferData, replies: &[Reply]) -> (step:
    Step<Buffer>)
    ensures
        step@ == create_buffer_step(*this, protection, data, replies@),
{
    let size = match data {
        BufferData::HostAllocated(host) => host.size(),
        BufferData::Uninitialized(size) => size,
    };
    if size > isize::MAX as usize {
        Step::failed()
    } else if replies.len() == 0 {
        Step::ask(Call::Gl(GlCall::GenBuffers))
    } else if replies[0].object == 0 {
        Step::failed()
    } else if replies.len() == 1 {
        Step::ask(
            Call::Gl(
                GlCall::BindBuffer {
                    target: COPY_WRITE_BUFFER,
                    buffer: #[verifier::truncate]
                    (replies[0].object as u32),
                },
            ),
        )
    } else if replies.len() == 2 {
        match data {
            BufferData::HostAllocated(host) => Step::ask_with(
                Call::Gl(
                    GlCall::BufferData {
                        target: COPY_WRITE_BUFFER,
                        size: size as isize,
                        initialized: true,
                        usage: DYNAMIC_DRAW,
                    },
                ),
                vstd::slice::slice_to_vec(host.as_slice()),
            ),
            BufferData::Uninitialized(_) => Step::ask_with(
                Call::Gl(
                    GlCall::BufferData {
                        target: COPY_WRITE_BUFFER,
                        size: size as isize,
                        initialized: false,
                        usage: DYNAMIC_DRAW,
                    },
                ),
                Vec::new(),
            ),
        }
    } else if replies.len() == 3 {
        Step::ask(Call::Gl(GlCall::GetError))
    } else if replies[3].integer == NO_ERROR {
        Step::done(Buffer { data: replies[0].object, functions: BufferFunctions { backend: Backend::Gl } })
    } else if replies.len() == 4 {
        Step::ask(
            Call::Gl(
                GlCall::DeleteBuffers {
                    buffer: #[verifier::truncate]
                    (replies[0].object as u32),
                },
            ),
        )
    } else {
        Step::failed()
    }
}

/// Makes a texture with storage and returns its name.
pub fn create_storage(target: u32, format: Format, size: &Size2D, replies: &[Reply]) -> (step: Step<
    usize,
>)
    ensures
        step@ == create_storage_step(target, format, *size, replies@),
{
    if size.width > i32::MAX as u32 || size.height > i32::MAX as u32 {
        Step::failed()
    } else if replies.len() == 0 {
        Step::ask(Call::Gl(GlCall::GenTextures))
    } else if replies[0].object == 0 {
        Step::failed()
    } else if replies.len() == 1 {
        Step::ask(
            Call::Gl(
                GlCall::BindTexture {
                    target,
                    texture: #[verifier::truncate]
                    (replies[0].object as u32),
                },
            ),
        )
    } else if replies.len() == 2 {
        Step::ask(
            Call::Gl(
                GlCall::TexStorage2D {
                    target,
                    levels: 1,
                    internal_format: format.gl_internal_format(),
                    width: size.width as i32,
                    height: size.height as i32,
                },
            ),
        )
    } else if replies.len() == 3 {
        Step::ask(Call::Gl(GlCall::GetError))
    } else if replies[3].integer == NO_ERROR {
        Step::done(replies[0].object)
    } else if replies.len() == 4 {
        Step::ask(
            Call::Gl(
                GlCall::DeleteTextures {
                    texture: #[verifier::truncate]
                    (replies[0].object as u32),
                },
            ),
        )
    } else {
        Step::failed()
    }
}

/// Creates a new image of the given format, GPU-side protection, and size.
pub fn create_image(
    this: &Device,
    format: Format,
    protection: Protection,
    size: &Size2D,
    replies: &[Reply],
) -> (step: Step<Image>)
    ensures
        step@ == create_image_step(*this, format, protection, *size, replies@),
{
    match create_storage(TEXTURE_RECTANGLE, format, size, replies) {
        Step::Call(request) => Step::Call(request),
        Step::Done(Ok(texture)) => Step::done(
            Image {
                data: [texture, protection.to_index()],
                functions: ImageFunctions { backend: Backend::Gl },
            },
        ),
        Step::Done(Err(error)) => Step::Done(Err(error)),
    }
}

/// Creates a new texture of the given format, GPU-side protection, and size.
pub fn create_texture(
    this: &Device,
    format: Format,
    protection: Protection,
    size: &Size2D,
    replies: &[Reply],
) -> (step: Step<Texture>)
    ensures
        step@ == create_texture_step(*this, format, protection, *size, replies@),
{
    match create_storage(TEXTURE_2D, format, size, replies) {
        Step::Call(request) => Step::Call(request),
        Step::Done(Ok(texture)) => Step::done(
            Texture { data: [texture, 0], functions: TextureFunctions { backend: Backend::Gl } },
        ),
        Step::Done(Err(error)) => Step::Done(Err(error)),
    }
}

/// A compilation that the driver fails is reported: every run ends with
/// `CompileFailed` and the shader's log as its message, with no program, and
/// after the shader has been deleted.
pub proof fn failed_compilation_is_reported(this: Device, source: &str, replies: Seq<Reply>)
    requires
        complete(|r: Seq<Reply>| create_program_step(this, source, r), replies),
        replies.len() >= 4,
        replies[3].integer != TRUE,
    ensures
        replies.len() == 7,
        call_at(|r: Seq<Reply>| create_program_step(this, source, r), replies, 6) == Call::Gl(
            GlCall::DeleteShader { shader: replies[0].object as u32 },
        ),
        create_program_step(this, source, replies) == StepView::<Program>::Done(
            Err(ErrorView::CompileFailed(log_text(replies[5].bytes@))),
        ),
{
    let step = |r: Seq<Reply>| create_program_step(this, source, r);
    assert(step(replies) is Done);
    let first = replies.take(0);
    assert(step(first) is Call);
    let one = replies.take(1);
    assert(step(one) is Call);
    assert(one[0] == replies[0]);
    if replies.len() > 7 {
        let shorter = replies.take(7);
        assert(step(shorter) is Call);
        assert(shorter[3] == replies[3]);
    }
    let before = replies.take(6);
    assert(before[0] == replies[0] && before[3] == replies[3]);
}

/// A link that the driver fails is reported: every run ends with
/// `LinkFailed` and the program's log as its message, with no program, and
/// after the program and the shader have been deleted.
pub proof fn failed_link_is_reported(this: Device, source: &str, replies: Seq<Reply>)
    requires
        complete(|r: Seq<Reply>| create_program_step(this, source, r), replies),
        replies.len() >= 8,
        replies[3].integer == TRUE,
        replies[7].integer != TRUE,
    ensures
        replies.len() == 12,
        call_at(|r: Seq<Reply>| create_program_step(this, source, r), replies, 10) == Call::Gl(
            GlCall::DeleteProgram { program: replies[4].object as u32 },
        ),
        call_at(|r: Seq<Reply>| create_program_step(this, source, r), replies, 11) == Call::Gl(
            GlCall::DeleteShader { shader: replies[0].object as u32 },
        ),
        create_program_step(this, source, replies) == StepView::<Program>::Done(
            Err(ErrorView::LinkFailed(log_text(replies[9].bytes@))),
        ),
{
    let step = |r: Seq<Reply>| create_program_step(this, source, r);
    assert(step(replies) is Done);
    let first = replies.take(0);
    assert(step(first) is Call);
    let one = replies.take(1);
    assert(step(one) is Call);
    assert(one[0] == replies[0]);
    let six = replies.take(6);
    assert(step(six) is Call);
    assert(six[0] == replies[0] && six[3] == replies[3] && six[4] == replies[4]);
    if replies.len() > 12 {
        let shorter = replies.take(12);
        assert(step(shorter) is Call);
        assert(shorter[3] == replies[3] && shorter[7] == replies[7]);
    }
    let tenth = replies.take(10);
    assert(tenth[0] == replies[0] && tenth[3] == replies[3] && tenth[4] == replies[4] && tenth[7]
        == replies[7]);
    let eleventh = replies.take(11);
    assert(eleventh[0] == replies[0] && eleventh[3] == replies[3] && eleventh[4] == replies[4]
        && eleventh[7] == replies[7]);
}

/// An allocation that the driver fails gives no buffer and leaves none
/// behind: where the driver reports an error after the store was asked for,
/// every run consists of five calls, the last of which deletes the buffer,
/// and ends with `Failed`. Where the driver gives no buffer at all, a run
/// consists of the one call that asked for it, and ends with `Failed`.
pub proof fn failed_allocation_is_reported(
    this: Device,
    protection: Protection,
    data: BufferData,
    replies: Seq<Reply>,
)
    requires
        complete(|r: Seq<Reply>| create_buffer_step(this, protection, data, r), replies),
        replies.len() >= 1,
    ensures
        replies[0].object == 0 ==> replies.len() == 1 && create_buffer_step(
            this,
            protection,
            data,
            replies,
        ) == failed::<Buffer>(),
        replies.len() >= 4 && !no_error(replies[3]) ==> replies.len() == 5 && call_at(
            |r: Seq<Reply>| create_buffer_step(this, protection, data, r),
            replies,
            4,
        ) == Call::Gl(GlCall::DeleteBuffers { buffer: replies[0].object as u32 })
            && create_buffer_step(this, protection, data, replies) == failed::<Buffer>(),
{
    let step = |r: Seq<Reply>| create_buffer_step(this, protection, data, r);
    assert(step(replies) is Done);
    let first = replies.take(0);
    assert(step(first) is Call);
    if replies.len() > 1 {
        let one = replies.take(1);
        assert(step(one) is Call);
        assert(one[0] == replies[0]);
    }
    if replies.len() > 5 {
        let five = replies.take(5);
        assert(step(five) is Call);
        assert(five[0] == replies[0] && five[3] == replies[3]);
    }
    if replies.len() >= 4 {
        let four = replies.take(4);
        assert(four[0] == replies[0] && four[3] == replies[3]);
    }
}

} // verus!
