//! Queues of the OpenCL backend.

use vstd::prelude::*;
use crate::api::cl::call::{
    by_status, finish_by_status, Argument, ClCall, CL_IMAGE_DEPTH, CL_IMAGE_HEIGHT, CL_IMAGE_WIDTH,
    CL_SUCCESS, CL_TRUE,
};
use crate::backend::Backend;
use crate::buffer::Buffer;
use crate::image::{Color, Image};
use crate::native::{ask, ask_after, done, failed, Call, Reply, Step, StepView};
use crate::profile_event::{ProfileEvent, ProfileEventFunctions};
use crate::program::Program;
use crate::queue::{check_groups, copy_bytes, groups_are_valid, groups_in, groups_of, Queue, Uniform};
use crate::sync_event::{SyncEvent, SyncEventFunctions};

verus! {

/// The native events of `events`, in their order: the wait list of a call.
pub open spec fn wait_list(events: Seq<SyncEvent>) -> Seq<usize> {
    Seq::new(events.len(), |i: int| events[i].data)
}

/// The kernel argument that binds `uniform`.
pub open spec fn argument(uniform: Uniform) -> Argument {
    match uniform {
        Uniform::Buffer(buffer) => Argument::Memory(buffer.data),
        Uniform::Image(image) => Argument::Memory(image.data[0]),
        Uniform::U32(value) => Argument::U32(value),
        Uniform::UVec4(values) => Argument::UVec4(values[0], values[1], values[2], values[3]),
    }
}

/// The size in bytes of the kernel argument `value`.
pub open spec fn argument_size(value: Argument) -> usize {
    match value {
        Argument::Memory(_) => vstd::layout::size_of::<usize>() as usize,
        Argument::U32(_) => 4,
        Argument::UVec4(_, _, _, _) => 16,
    }
}

/// Whether one of the first `count` replies reports a failure.
pub open spec fn some_failed(replies: Seq<Reply>, count: int) -> bool {
    exists|k: int| 0 <= k < count && k < replies.len() && (#[trigger] replies[k]).integer != CL_SUCCESS
}

/// The step that ends a submission according to `reply`: with the profile
/// event of the command where the driver accepted it.
pub open spec fn submitted(reply: Reply) -> StepView<ProfileEvent> {
    if reply.integer == CL_SUCCESS {
        done(ProfileEvent { data: reply.object, functions: ProfileEventFunctions { backend: Backend::Cl } })
    } else {
        failed()
    }
}

/// Releases the native queue: one call, whose reply is not looked at.
pub open spec fn destroy_step(this: Queue, replies: Seq<Reply>) -> StepView<()> {
    if replies.len() == 0 {
        ask(Call::Cl(ClCall::ReleaseCommandQueue { queue: this.data }))
    } else {
        done(())
    }
}

/// Flushes the native queue, and succeeds where the driver does.
pub open spec fn flush_step(this: Queue, replies: Seq<Reply>) -> StepView<()> {
    if replies.len() == 0 {
        ask(Call::Cl(ClCall::Flush { queue: this.data }))
    } else {
        by_status(replies[0])
    }
}

/// Finishes the native queue, and succeeds where the driver does.
pub open spec fn finish_step(this: Queue, replies: Seq<Reply>) -> StepView<()> {
    if replies.len() == 0 {
        ask(Call::Cl(ClCall::Finish { queue: this.data }))
    } else {
        by_status(replies[0])
    }
}

/// Binds the uniforms in their order, one call each, then enqueues the
/// kernel over the grid after the events. The first failure that the driver
/// reports ends the operation at once, and so does a grid that cannot be
/// dispatched, before any call.
pub open spec fn submit_compute_step(
    this: Queue,
    program: Program,
    num_groups: Seq<u32>,
    uniforms: Seq<(u32, Uniform)>,
    events: Seq<SyncEvent>,
    replies: Seq<Reply>,
) -> StepView<ProfileEvent> {
    if !groups_are_valid(num_groups) || some_failed(replies, uniforms.len() as int) {
        failed()
    } else if replies.len() < uniforms.len() {
        let (index, uniform) = uniforms[replies.len() as int];
        ask(
            Call::Cl(
                ClCall::SetKernelArg {
                    kernel: program.data,
                    index,
                    size: argument_size(argument(uniform)),
                    value: argument(uniform),
                },
            ),
        )
    } else if replies.len() == uniforms.len() {
        ask_after(
            Call::Cl(
                ClCall::EnqueueNdRangeKernel {
                    queue: this.data,
                    kernel: program.data,
                    dimensions: num_groups.len() as u32,
                    global_work_size: (
                        groups_in(num_groups, 0, 0) as usize,
                        groups_in(num_groups, 1, 0) as usize,
                        groups_in(num_groups, 2, 0) as usize,
                    ),
                },
            ),
            wait_list(events),
        )
    } else {
        submitted(replies[uniforms.len() as int])
    }
}

/// The depth of the region that covers an image whose depth is `depth`: an
/// image of two dimensions, which has no depth, is one pixel deep.
pub open spec fn region_depth(depth: usize) -> usize {
    if depth == 0 {
        1
    } else {
        depth
    }
}

/// Asks the driver for the image's width, height and depth, then enqueues
/// the fill of the whole image with `color` after the events. A query that
/// the driver fails ends the operation at once.
pub open spec fn submit_clear_step(
    this: Queue,
    image: Image,
    color: Color,
    events: Seq<SyncEvent>,
    replies: Seq<Reply>,
) -> StepView<ProfileEvent> {
    if replies.len() == 0 {
        ask(Call::Cl(ClCall::GetImageInfo { image: image.data[0], parameter: CL_IMAGE_WIDTH }))
    } else if replies[0].integer != CL_SUCCESS {
        failed()
    } else if replies.len() == 1 {
        ask(Call::Cl(ClCall::GetImageInfo { image: image.data[0], parameter: CL_IMAGE_HEIGHT }))
    } else if replies[1].integer != CL_SUCCESS {
        failed()
    } else if replies.len() == 2 {
        ask(Call::Cl(ClCall::GetImageInfo { image: image.data[0], parameter: CL_IMAGE_DEPTH }))
    } else if replies[2].integer != CL_SUCCESS {
        failed()
    } else if replies.len() == 3 {
        ask_after(
            Call::Cl(
                ClCall::EnqueueFillImage {
                    queue: this.data,
                    image: image.data[0],
                    color: (color->0, color->1, color->2, color->3),
                    region: (replies[0].size, replies[1].size, region_depth(replies[2].size)),
                },
            ),
            wait_list(events),
        )
    } else {
        submitted(replies[3])
    }
}

/// Whether `reply` answers a read of `size` bytes with success and with
/// exactly that many bytes.
pub open spec fn was_read(reply: Reply, size: int) -> bool {
    reply.integer == CL_SUCCESS && reply.bytes@.len() == size
}

/// Enqueues one blocking read of as many bytes as `dest` holds, from `start`
/// in `buffer`, after the events.
pub open spec fn submit_read_buffer_step(
    this: Queue,
    dest: Seq<u8>,
    buffer: Buffer,
    start: usize,
    events: Seq<SyncEvent>,
    replies: Seq<Reply>,
) -> StepView<ProfileEvent> {
    if replies.len() == 0 {
        ask_after(
            Call::Cl(
                ClCall::EnqueueReadBuffer {
                    queue: this.data,
                    buffer: buffer.data,
                    blocking: CL_TRUE,
                    offset: start,
                    size: dest.len() as usize,
                },
            ),
            wait_list(events),
        )
    } else if was_read(replies[0], dest.len() as int) {
        done(ProfileEvent { data: replies[0].object, functions: ProfileEventFunctions { backend: Backend::Cl } })
    } else {
        failed()
    }
}

/// What `dest` holds after a step of the read: the bytes that the driver
/// read once it has read them, and what it held before in any other case.
pub open spec fn submit_read_buffer_dest(dest: Seq<u8>, replies: Seq<Reply>) -> Seq<u8> {
    if replies.len() > 0 && was_read(replies[0], dest.len() as int) {
        replies[0].bytes@
    } else {
        dest
    }
}

/// Enqueues a marker, whose event is the sync event.
pub open spec fn submit_sync_event_step(this: Queue, replies: Seq<Reply>) -> StepView<SyncEvent> {
    if replies.len() == 0 {
        ask(Call::Cl(ClCall::EnqueueMarker { queue: this.data }))
    } else if replies[0].integer == CL_SUCCESS {
        done(SyncEvent { data: replies[0].object, functions: SyncEventFunctions { backend: Backend::Cl } })
    } else {
        failed()
    }
}

/// Returns the native events of `events`, in their order.
pub fn wait_list_of(events: &[SyncEvent]) -> (list: Vec<usize>)
    ensures
        list@ == wait_list(events@),
{
    let mut list: Vec<usize> = Vec::new();
    let mut i: usize = 0;
    while i < events.len()
        invariant
            i <= events@.len(),
            list@.len() == i,
            forall|k: int| 0 <= k < i ==> list@[k] == events@[k].data,
        decreases events@.len() - i,
    {
        list.push(events[i].data);
        i += 1;
    }
    assert(list@ =~= wait_list(events@));
    list
}

/// Returns the kernel argument that binds `uniform`.
pub fn argument_of(uniform: &Uniform) -> (value: Argument)
    ensures
        value == argument(*uniform),
{
    match uniform {
        Uniform::Buffer(buffer) => Argument::Memory(buffer.data),
        Uniform::Image(image) => Argument::Memory(image.data[0]),
        Uniform::U32(value) => Argument::U32(*value),
        Uniform::UVec4(values) => Argument::UVec4(values[0], values[1], values[2], values[3]),
    }
}

/// Returns the size in bytes of the kernel argument `value`.
pub fn size_of_argument(value: &Argument) -> (size: usize)
    ensures
        size == argument_size(*value),
{
    match value {
        Argument::Memory(_) => core::mem::size_of::<usize>(),
        Argument::U32(_) => 4,
        Argument::UVec4(_, _, _, _) => 16,
    }
}

/// Returns whether one of the first `count` replies reports a failure.
pub fn any_failed(replies: &[Reply], count: usize) -> (failure: bool)
    ensures
        failure == some_failed(replies@, count as int),
{
    let mut i: usize = 0;
    while i < count && i < replies.len()
        invariant
            forall|k: int| 0 <= k < i && k < replies@.len() ==> (#[trigger] replies@[k]).integer == CL_SUCCESS,
        decreases replies@.len() - i,
    {
        if replies[i].integer != CL_SUCCESS {
            return true;
        }
        i += 1;
    }
    false
}

/// Ends a submission according to `reply`.
pub fn finish_submission(reply: &Reply) -> (step: Step<ProfileEvent>)
    ensures
        step@ == submitted(*reply),
{
    if reply.integer == CL_SUCCESS {
        Step::done(ProfileEvent { data: reply.object, functions: ProfileEventFunctions { backend: Backend::Cl } })
    } else {
        Step::failed()
    }
}

/// Releases the native queue.
pub fn destroy(this: &Queue, replies: &[Reply]) -> (step: Step<()>)
    ensures
        step@ == destroy_step(*this, replies@),
{
    if replies.len() == 0 {
        Step::ask(Call::Cl(ClCall::ReleaseCommandQueue { queue: this.data }))
    } else {
        Step::done(())
    }
}

/// Submits all queued commands to the GPU.
pub fn flush(this: &Queue, replies: &[Reply]) -> (step: Step<()>)
    ensures
        step@ == flush_step(*this, replies@),
{
    if replies.len() == 0 {
        Step::ask(Call::Cl(ClCall::Flush { queue: this.data }))
    } else {
        finish_by_status(&replies[0])
    }
}

/// Submits commands to the GPU and waits for them to complete.
pub fn finish(this: &Queue, replies: &[Reply]) -> (step: Step<()>)
    ensures
        step@ == finish_step(*this, replies@),
{
    if replies.len() == 0 {
        Step::ask(Call::Cl(ClCall::Finish { queue: this.data }))
    } else {
        finish_by_status(&replies[0])
    }
}

/// Instructs the GPU to execute the given program.
pub fn submit_compute(
    this: &Queue,
    program: &Program,
    num_groups: &[u32],
    uniforms: &[(u32, Uniform)],
    events: &[SyncEvent],
    replies: &[Reply],
) -> (step: Step<ProfileEvent>)
    ensures
        step@ == submit_compute_step(*this, *program, num_groups@, uniforms@, events@, replies@),
{
    if !check_groups(num_groups) || any_failed(replies, uniforms.len()) {
        Step::failed()
    } else if replies.len() < uniforms.len() {
        let index = uniforms[replies.len()].0;
        let value = argument_of(&uniforms[replies.len()].1);
        let size = size_of_argument(&value);
        Step::ask(Call::Cl(ClCall::SetKernelArg { kernel: program.data, index, size, value }))
    } else if replies.len() == uniforms.len() {
        Step::ask_after(
            Call::Cl(
                ClCall::EnqueueNdRangeKernel {
                    queue: this.data,
                    kernel: program.data,
                    dimensions: num_groups.len() as u32,
                    global_work_size: (
                        groups_of(num_groups, 0, 0) as usize,
                        groups_of(num_groups, 1, 0) as usize,
                        groups_of(num_groups, 2, 0) as usize,
                    ),
                },
            ),
            wait_list_of(events),
        )
    } else {
        finish_submission(&replies[uniforms.len()])
    }
}

/// Returns the depth of the region that covers an image whose depth is
/// `depth`.
pub fn depth_of_region(depth: usize) -> (pixels: usize)
    ensures
        pixels == region_depth(depth),
{
    if depth == 0 {
        1
    } else {
        depth
    }
}

/// Instructs the GPU to clear the given image to a solid color.
pub fn submit_clear(
    this: &Queue,
    image: &Image,
    color: &Color,
    events: &[SyncEvent],
    replies: &[Reply],
) -> (step: Step<ProfileEvent>)
    ensures
        step@ == submit_clear_step(*this, *image, *color, events@, replies@),
{
    if replies.len() == 0 {
        Step::ask(Call::Cl(ClCall::GetImageInfo { image: image.data[0], parameter: CL_IMAGE_WIDTH }))
    } else if replies[0].integer != CL_SUCCESS {
        Step::failed()
    } else if replies.len() == 1 {
        Step::ask(Call::Cl(ClCall::GetImageInfo { image: image.data[0], parameter: CL_IMAGE_HEIGHT }))
    } else if replies[1].integer != CL_SUCCESS {
        Step::failed()
    } else if replies.len() == 2 {
        Step::ask(Call::Cl(ClCall::GetImageInfo { image: image.data[0], parameter: CL_IMAGE_DEPTH }))
    } else if replies[2].integer != CL_SUCCESS {
        Step::failed()
    } else if replies.len() == 3 {
        let Color::UInt(r, g, b, a) = *color;
        Step::ask_after(
            Call::Cl(
                ClCall::EnqueueFillImage {
                    queue: this.data,
                    image: image.data[0],
                    color: (r, g, b, a),
                    region: (replies[0].size, replies[1].size, depth_of_region(replies[2].size)),
                },
            ),
            wait_list_of(events),
        )
    } else {
        finish_submission(&replies[3])
    }
}

/// Reads a buffer from the GPU to main memory.
pub fn submit_read_buffer(
    this: &Queue,
    dest: &mut [u8],
    buffer: &Buffer,
    start: usize,
    events: &[SyncEvent],
    replies: &[Reply],
) -> (step: Step<ProfileEvent>)
    ensures
        step@ == submit_read_buffer_step(*this, old(dest)@, *buffer, start, events@, replies@),
        final(dest)@ == submit_read_buffer_dest(old(dest)@, replies@),
{
    if replies.len() == 0 {
        Step::ask_after(
            Call::Cl(
                ClCall::EnqueueReadBuffer {
                    queue: this.data,
                    buffer: buffer.data,
                    blocking: CL_TRUE,
                    offset: start,
                    size: dest.len(),
                },
            ),
            wait_list_of(events),
        )
    } else if replies[0].integer == CL_SUCCESS && replies[0].bytes.len() == dest.len() {
        copy_bytes(dest, replies[0].bytes.as_slice());
        Step::done(ProfileEvent { data: replies[0].object, functions: ProfileEventFunctions { backend: Backend::Cl } })
    } else {
        Step::failed()
    }
}

/// Returns a sync event that can be used to wait until the GPU has finished executing all
/// commands up to the point at which this is called.
pub fn submit_sync_event(this: &Queue, replies: &[Reply]) -> (step: Step<SyncEvent>)
    ensures
        step@ == submit_sync_event_step(*this, replies@),
{
    if replies.len() == 0 {
        Step::ask(Call::Cl(ClCall::EnqueueMarker { queue: this.data }))
    } else if replies[0].integer == CL_SUCCESS {
        Step::done(SyncEvent { data: replies[0].object, functions: SyncEventFunctions { backend: Backend::Cl } })
    } else {
        Step::failed()
    }
}

/// A failure of the driver aborts a dispatch with the miscellaneous error:
/// whichever of the calls that bind the uniforms, or the call that enqueues
/// the kernel, is the first that the driver fails, the operation is finished
/// with `Failed` from then on and yields no event.
pub proof fn failure_aborts_dispatch(
    this: Queue,
    program: Program,
    num_groups: Seq<u32>,
    uniforms: Seq<(u32, Uniform)>,
    events: Seq<SyncEvent>,
    replies: Seq<Reply>,
    k: int,
)
    requires
        0 <= k < replies.len(),
        k <= uniforms.len(),
        replies[k].integer != CL_SUCCESS,
    ensures
        submit_compute_step(this, program, num_groups, uniforms, events, replies) == failed::<
            ProfileEvent,
        >(),
{
    if k < uniforms.len() {
        assert(some_failed(replies, uniforms.len() as int));
    } else if !some_failed(replies, uniforms.len() as int) && groups_are_valid(num_groups) {
        assert(replies.len() > uniforms.len());
    }
}

} // verus!
