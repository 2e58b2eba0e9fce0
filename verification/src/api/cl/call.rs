//! The OpenCL entry points that the backend calls.

use vstd::prelude::*;
use crate::native::{done, failed, Reply, Step, StepView};

verus! {

/// The status of a call that succeeded.
pub const CL_SUCCESS: i32 = 0;

/// The boolean true.
pub const CL_TRUE: u32 = 1;

/// The device type of a GPU.
pub const CL_DEVICE_TYPE_GPU: u64 = 0x4;

/// The device parameter that holds the device's name.
pub const CL_DEVICE_NAME: u32 = 0x102B;

/// The context parameter that holds the context's devices.
pub const CL_CONTEXT_DEVICES: u32 = 0x1081;

/// The queue property that enables profiling of its commands.
pub const CL_QUEUE_PROFILING_ENABLE: u64 = 0x2;

/// The build parameter that holds the build log.
pub const CL_PROGRAM_BUILD_LOG: u32 = 0x1183;

/// The kernel parameter that holds the kernel's program.
pub const CL_KERNEL_PROGRAM: u32 = 0x1194;

/// Kernels may read and write the memory object.
pub const CL_MEM_READ_WRITE: u64 = 0x1;

/// Kernels may only write the memory object.
pub const CL_MEM_WRITE_ONLY: u64 = 0x2;

/// Kernels may only read the memory object.
pub const CL_MEM_READ_ONLY: u64 = 0x4;

/// The memory object starts as a copy of the host's data.
pub const CL_MEM_COPY_HOST_PTR: u64 = 0x20;

/// The channel order of a single red channel.
pub const CL_R: u32 = 0x10B0;

/// The channel order red, green, blue, alpha.
pub const CL_RGBA: u32 = 0x10B5;

/// The channel type of normalized unsigned 8-bit integers.
pub const CL_UNORM_INT8: u32 = 0x10D2;

/// The channel type of 32-bit floating-point numbers.
pub const CL_FLOAT: u32 = 0x10DE;

/// The image parameter that holds the image's format.
pub const CL_IMAGE_FORMAT: u32 = 0x1110;

/// The image parameter that holds the image's width in pixels.
pub const CL_IMAGE_WIDTH: u32 = 0x1114;

/// The image parameter that holds the image's height in pixels.
pub const CL_IMAGE_HEIGHT: u32 = 0x1115;

/// The image parameter that holds the image's depth in pixels.
pub const CL_IMAGE_DEPTH: u32 = 0x1116;

/// The profiling parameter that holds the time at which a command started.
pub const CL_PROFILING_COMMAND_START: u32 = 0x1282;

/// The profiling parameter that holds the time at which a command ended.
pub const CL_PROFILING_COMMAND_END: u32 = 0x1283;

/// The number of bytes that the backend offers for a build log.
pub const BUILD_LOG_CAPACITY: usize = 65536;

/// The value of one kernel argument.
#[allow(inconsistent_fields)]
#[derive(Clone, Copy, Debug)]
pub enum Argument {
    /// A memory object: a buffer or an image.
    Memory(usize),
    /// A 32-bit unsigned integer.
    U32(u32),
    /// A vector of four 32-bit unsigned integers.
    UVec4(u32, u32, u32, u32),
}

/// One call of an OpenCL entry point, with the arguments that the backend
/// chooses. The doc comment of each call names the fields of the reply that
/// the call fills; `integer` is the status that the entry point returns or
/// writes.
#[allow(inconsistent_fields)]
#[derive(Clone, Copy, Debug)]
pub enum ClCall {
    /// `clGetDeviceIDs` for the number of devices of `device_type` on the
    /// default platform. Fills `integer` and, with the number, `size`.
    GetDeviceCount { device_type: u64 },
    /// `clGetDeviceIDs` for `count` devices of `device_type` on the default
    /// platform. Fills `integer` and, with the devices, `objects`.
    GetDeviceIds { device_type: u64, count: u32 },
    /// `clGetDeviceInfo` for the size in bytes of `parameter` of `device`.
    /// Fills `integer` and, with the size, `size`.
    GetDeviceInfoSize { device: usize, parameter: u32 },
    /// `clGetDeviceInfo` for `parameter` of `device`, into `size` bytes.
    /// Fills `integer` and `bytes`.
    GetDeviceInfo { device: usize, parameter: u32, size: usize },
    /// `clCreateContext` on the one device `device`. Fills `object` with the
    /// context, null on failure.
    CreateContext { device: usize },
    /// `clReleaseContext`.
    ReleaseContext { context: usize },
    /// `clGetContextInfo` for the first of the devices of `context`
    /// (`parameter` is `CL_CONTEXT_DEVICES`). Fills `integer` and, with the
    /// device, `object`.
    GetContextInfo { context: usize, parameter: u32 },
    /// `clCreateCommandQueue`. Fills `object` with the queue, null on failure.
    CreateCommandQueue { context: usize, device: usize, properties: u64 },
    /// `clReleaseCommandQueue`.
    ReleaseCommandQueue { queue: usize },
    /// `clCreateProgramWithSource` with the one source string that the
    /// request holds in `bytes`. Fills `object` with the program, null on
    /// failure.
    CreateProgramWithSource { context: usize },
    /// `clBuildProgram` for `device`, without options. Fills `integer`.
    BuildProgram { program: usize, device: usize },
    /// `clGetProgramBuildInfo` for `parameter`: the driver may write up to
    /// `size` bytes into a zeroed buffer of `capacity` bytes. Fills `bytes`
    /// with the whole buffer and `size` with the size that the driver
    /// reports.
    GetProgramBuildInfo { program: usize, device: usize, parameter: u32, capacity: usize, size: usize },
    /// `clCreateKernelsInProgram` for one kernel. Fills `integer` and, with
    /// the kernel, `object`.
    CreateKernelsInProgram { program: usize },
    /// `clGetKernelInfo` for `parameter` (`CL_KERNEL_PROGRAM`). Fills
    /// `integer` and, with the program, `object`.
    GetKernelInfo { kernel: usize, parameter: u32 },
    /// `clReleaseKernel`.
    ReleaseKernel { kernel: usize },
    /// `clReleaseProgram`.
    ReleaseProgram { program: usize },
    /// `clCreateBuffer` of `size` bytes. With `CL_MEM_COPY_HOST_PTR` among
    /// `flags` the host data are the `bytes` of the request; without it no
    /// host data are handed over. Fills `object` with the buffer, null on
    /// failure.
    CreateBuffer { context: usize, flags: u64, size: usize },
    /// `clCreateImageFromIOSurface2DAPPLE`. Fills `integer` with the error
    /// code and `object` with the image.
    CreateImageFromSurface {
        context: usize,
        flags: u64,
        channel_order: u32,
        channel_data_type: u32,
        width: usize,
        height: usize,
        surface: usize,
    },
    /// `clGetImageInfo` for a parameter of type `size_t`. Fills `integer`
    /// and, with the parameter, `size`; `size` is zero where the driver wrote
    /// nothing.
    GetImageInfo { image: usize, parameter: u32 },
    /// `clGetImageInfo` for `CL_IMAGE_FORMAT`. Fills `integer` and, with the
    /// channel order and the channel data type in this order, `objects`.
    GetImageFormat { image: usize },
    /// `clReleaseMemObject`.
    ReleaseMemObject { memory: usize },
    /// `clFlush`. Fills `integer`.
    Flush { queue: usize },
    /// `clFinish`. Fills `integer`.
    Finish { queue: usize },
    /// `clSetKernelArg`. Fills `integer`.
    SetKernelArg { kernel: usize, index: u32, size: usize, value: Argument },
    /// `clEnqueueNDRangeKernel` over `dimensions` dimensions, with no offset
    /// and no local size, after the events of the request's `wait_list`.
    /// Fills `integer` and, with the command's event, `object`.
    EnqueueNdRangeKernel {
        queue: usize,
        kernel: usize,
        dimensions: u32,
        global_work_size: (usize, usize, usize),
    },
    /// `clEnqueueFillImage` from the origin, after the events of the
    /// request's `wait_list`. Fills `integer` and, with the command's event,
    /// `object`.
    EnqueueFillImage {
        queue: usize,
        image: usize,
        color: (u32, u32, u32, u32),
        region: (usize, usize, usize),
    },
    /// A blocking `clEnqueueReadBuffer` of `size` bytes from `offset`, after
    /// the events of the request's `wait_list`. Fills `integer`, with the
    /// command's event `object`, and with what was read `bytes`.
    EnqueueReadBuffer { queue: usize, buffer: usize, blocking: u32, offset: usize, size: usize },
    /// `clEnqueueMarker`. Fills `integer` and, with the marker's event,
    /// `object`.
    EnqueueMarker { queue: usize },
    /// `clWaitForEvents` on the one event `event`. Fills `integer`.
    WaitForEvents { event: usize },
    /// `clGetEventProfilingInfo`. Fills `integer` and, with the time in
    /// nanoseconds, `time`.
    GetEventProfilingInfo { event: usize, parameter: u32 },
    /// `clReleaseEvent`.
    ReleaseEvent { event: usize },
}

/// The step that ends an operation according to the status of `reply`.
pub open spec fn by_status(reply: Reply) -> StepView<()> {
    if reply.integer == CL_SUCCESS {
        done(())
    } else {
        failed()
    }
}

/// Ends an operation according to the status of `reply`.
pub fn finish_by_status(reply: &Reply) -> (step: Step<()>)
    ensures
        step@ == by_status(*reply),
{
    if reply.integer == CL_SUCCESS {
        Step::done(())
    } else {
        Step::failed()
    }
}

} // verus!
