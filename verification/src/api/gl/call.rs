//! The OpenGL entry points that the backend calls.

use vstd::prelude::*;
use crate::native::{done, failed, Reply, Step, StepView};

verus! {

/// The error code of no error.
pub const NO_ERROR: i32 = 0;

/// The result of a wait on a fence that was signaled before the wait.
pub const ALREADY_SIGNALED: i32 = 0x911A;

/// The result of a wait on a fence that was signaled during the wait.
pub const CONDITION_SATISFIED: i32 = 0x911C;

/// The boolean false.
pub const FALSE: u8 = 0;

/// The boolean true, as an integer parameter reports it.
pub const TRUE: i32 = 1;

/// The pixel format of a single red channel.
pub const RED: u32 = 0x1903;

/// The pixel format red, green, blue, alpha.
pub const RGBA: u32 = 0x1908;

/// The pixel type of unsigned 8-bit integers.
pub const UNSIGNED_BYTE: u32 = 0x1401;

/// The pixel type of 32-bit floating-point numbers.
pub const FLOAT: u32 = 0x1406;

/// The internal format of one 8-bit channel.
pub const R8: u32 = 0x8229;

/// The internal format of one 32-bit floating-point channel.
pub const R32F: u32 = 0x822E;

/// The internal format of four 8-bit channels.
pub const RGBA8: u32 = 0x8058;

/// The string that names the renderer.
pub const RENDERER: u32 = 0x1F01;

/// The kind of a compute shader.
pub const COMPUTE_SHADER: u32 = 0x91B9;

/// The shader parameter that holds whether the last compilation succeeded.
pub const COMPILE_STATUS: u32 = 0x8B81;

/// The program parameter that holds whether the last link succeeded.
pub const LINK_STATUS: u32 = 0x8B82;

/// The parameter that holds the length of the information log, its terminator included.
pub const INFO_LOG_LENGTH: u32 = 0x8B84;

/// The buffer target that copies read from.
pub const COPY_READ_BUFFER: u32 = 0x8F36;

/// The buffer target that copies write to.
pub const COPY_WRITE_BUFFER: u32 = 0x8F37;

/// The buffer target of shader storage blocks.
pub const SHADER_STORAGE_BUFFER: u32 = 0x90D2;

/// The usage of a store that is modified repeatedly and used many times.
pub const DYNAMIC_DRAW: u32 = 0x88E8;

/// The target of two-dimensional textures.
pub const TEXTURE_2D: u32 = 0x0DE1;

/// The target of rectangle textures.
pub const TEXTURE_RECTANGLE: u32 = 0x84F5;

/// The first texture unit.
pub const TEXTURE0: u32 = 0x84C0;

/// The texture parameter that holds the width of a level.
pub const TEXTURE_WIDTH: u32 = 0x1000;

/// The texture parameter that holds the height of a level.
pub const TEXTURE_HEIGHT: u32 = 0x1001;

/// The texture parameter that holds the internal format of a level.
pub const TEXTURE_INTERNAL_FORMAT: u32 = 0x1003;

/// The barrier for texture fetches.
pub const TEXTURE_FETCH_BARRIER_BIT: u32 = 0x8;

/// The barrier for image loads and stores.
pub const SHADER_IMAGE_ACCESS_BARRIER_BIT: u32 = 0x20;

/// The barrier for accesses to shader storage blocks.
pub const SHADER_STORAGE_BARRIER_BIT: u32 = 0x2000;

/// Shaders may only read the image.
pub const READ_ONLY: u32 = 0x88B8;

/// Shaders may only write the image.
pub const WRITE_ONLY: u32 = 0x88B9;

/// Shaders may read and write the image.
pub const READ_WRITE: u32 = 0x88BA;

/// The query target that measures elapsed time.
pub const TIME_ELAPSED: u32 = 0x88BF;

/// The query parameter that holds the result.
pub const QUERY_RESULT: u32 = 0x8866;

/// The condition of a fence: the commands before it have completed.
pub const SYNC_GPU_COMMANDS_COMPLETE: u32 = 0x9117;

/// The flag of a wait that flushes the commands first.
pub const SYNC_FLUSH_COMMANDS_BIT: u32 = 0x1;

/// One call of an OpenGL entry point, with the arguments that the backend
/// chooses. The doc comment of each call names the fields of the reply that
/// the call fills; most calls fill none.
#[allow(inconsistent_fields)]
#[derive(Clone, Copy, Debug)]
pub enum GlCall {
    /// `glGetError`. Fills `integer` with the error code, which is zero
    /// where no call since the last `glGetError` has failed.
    GetError,
    /// `glGetString`. Fills `bytes` with the string, without its terminator.
    GetString { name: u32 },
    /// `glCreateShader`. Fills `object` with the shader's name.
    CreateShader { kind: u32 },
    /// `glShaderSource` with the one source string that the request holds in
    /// `bytes`, of `length` bytes.
    ShaderSource { shader: u32, length: i32 },
    /// `glCompileShader`.
    CompileShader { shader: u32 },
    /// `glGetShaderiv`. Fills `integer`; it is zero where the driver wrote
    /// nothing.
    GetShaderiv { shader: u32, parameter: u32 },
    /// `glGetShaderInfoLog` of at most `max_length` bytes into a zeroed
    /// buffer of `capacity` bytes. Fills `bytes` with the whole buffer.
    GetShaderInfoLog { shader: u32, max_length: i32, capacity: usize },
    /// `glDeleteShader`.
    DeleteShader { shader: u32 },
    /// `glCreateProgram`. Fills `object` with the program's name.
    CreateProgram,
    /// `glAttachShader`.
    AttachShader { program: u32, shader: u32 },
    /// `glLinkProgram`.
    LinkProgram { program: u32 },
    /// `glGetProgramiv`. Fills `integer`; it is zero where the driver wrote
    /// nothing.
    GetProgramiv { program: u32, parameter: u32 },
    /// `glGetProgramInfoLog` of at most `max_length` bytes into a zeroed
    /// buffer of `capacity` bytes. Fills `bytes` with the whole buffer.
    GetProgramInfoLog { program: u32, max_length: i32, capacity: usize },
    /// `glGetAttachedShaders` for one shader. Fills `object` with its name,
    /// zero where the program has none.
    GetAttachedShaders { program: u32 },
    /// `glUseProgram`.
    UseProgram { program: u32 },
    /// `glDeleteProgram`.
    DeleteProgram { program: u32 },
    /// `glGenBuffers` for one buffer. Fills `object` with its name.
    GenBuffers,
    /// `glBindBuffer`.
    BindBuffer { target: u32, buffer: u32 },
    /// `glBufferData` of `size` bytes. With `initialized` the data are the
    /// `bytes` of the request; without it no data are handed over.
    BufferData { target: u32, size: isize, initialized: bool, usage: u32 },
    /// `glBindBufferBase`.
    BindBufferBase { target: u32, index: u32, buffer: u32 },
    /// `glGetBufferSubData` of `size` bytes from `offset`. Fills `bytes` with
    /// what was read.
    GetBufferSubData { target: u32, offset: isize, size: isize },
    /// `glDeleteBuffers` for one buffer.
    DeleteBuffers { buffer: u32 },
    /// `glGenTextures` for one texture. Fills `object` with its name.
    GenTextures,
    /// `glActiveTexture`.
    ActiveTexture { unit: u32 },
    /// `glBindTexture`.
    BindTexture { target: u32, texture: u32 },
    /// `glTexStorage2D`.
    TexStorage2D { target: u32, levels: i32, internal_format: u32, width: i32, height: i32 },
    /// `glGetTexLevelParameteriv`. Fills `integer`; it is zero where the
    /// driver wrote nothing.
    GetTexLevelParameteriv { target: u32, level: i32, parameter: u32 },
    /// `glBindImageTexture`.
    BindImageTexture {
        unit: u32,
        texture: u32,
        level: i32,
        layered: u8,
        layer: i32,
        access: u32,
        format: u32,
    },
    /// `glTextureView`.
    TextureView {
        texture: u32,
        target: u32,
        original: u32,
        internal_format: u32,
        min_level: u32,
        levels: u32,
        min_layer: u32,
        layers: u32,
    },
    /// `glClearTexImage` with the four bytes of `color` as the data.
    ClearTexImage { texture: u32, level: i32, format: u32, pixel_type: u32, color: (u8, u8, u8, u8) },
    /// `glDeleteTextures` for one texture.
    DeleteTextures { texture: u32 },
    /// `glMemoryBarrier`.
    MemoryBarrier { barriers: u32 },
    /// `glUniform1ui`.
    Uniform1ui { location: i32, value: u32 },
    /// `glUniform4ui`.
    Uniform4ui { location: i32, values: (u32, u32, u32, u32) },
    /// `glGenQueries` for one query. Fills `object` with its name.
    GenQueries,
    /// `glBeginQuery`.
    BeginQuery { target: u32, query: u32 },
    /// `glEndQuery`.
    EndQuery { target: u32 },
    /// `glGetQueryObjectui64v`. Fills `time`; it is zero where the driver
    /// wrote nothing.
    GetQueryObjectui64v { query: u32, parameter: u32 },
    /// `glDeleteQueries` for one query.
    DeleteQueries { query: u32 },
    /// `glDispatchCompute`.
    DispatchCompute { groups: (u32, u32, u32) },
    /// `glFenceSync`. Fills `object` with the fence.
    FenceSync { condition: u32, flags: u32 },
    /// `glClientWaitSync`. Fills `integer` with what the wait returned.
    ClientWaitSync { sync: usize, flags: u32, timeout: u64 },
    /// `glDeleteSync`.
    DeleteSync { sync: usize },
    /// `glFlush`.
    Flush,
    /// `glFinish`.
    Finish,
}

/// Whether `reply` answers `glGetError` with no error: no call of the
/// operation has failed.
pub open spec fn no_error(reply: Reply) -> bool {
    reply.integer == NO_ERROR
}

/// The step that ends an operation according to the error that the driver
/// reports in `reply`.
pub open spec fn by_error(reply: Reply) -> StepView<()> {
    if no_error(reply) {
        done(())
    } else {
        failed()
    }
}

/// Ends an operation according to the error that the driver reports.
pub fn finish_by_error(reply: &Reply) -> (step: Step<()>)
    ensures
        step@ == by_error(*reply),
{
    if reply.integer == NO_ERROR {
        Step::done(())
    } else {
        Step::failed()
    }
}

} // verus!
