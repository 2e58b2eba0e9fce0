//! Queues of the OpenGL backend.

use vstd::prelude::*;
use crate::api::gl::call::{
    by_error, finish_by_error, no_error, GlCall, COPY_READ_BUFFER, FALSE, NO_ERROR, READ_ONLY, READ_WRITE, RGBA,
    SHADER_IMAGE_ACCESS_BARRIER_BIT,
    SHADER_STORAGE_BARRIER_BIT, SHADER_STORAGE_BUFFER, SYNC_GPU_COMMANDS_COMPLETE, TEXTURE0,
    TEXTURE_FETCH_BARRIER_BIT, TEXTURE_INTERNAL_FORMAT, TEXTURE_RECTANGLE, TIME_ELAPSED,
    UNSIGNED_BYTE, WRITE_ONLY,
};
use crate::backend::Backend;
use crate::buffer::{Buffer, Protection};
use crate::image::{Color, Image};
use crate::native::{ask, done, failed, Call, Reply, Step, StepView};
use crate::profile_event::{ProfileEvent, ProfileEventFunctions};
use crate::program::Program;
use crate::queue::{check_groups, copy_bytes, groups_are_valid, groups_in, groups_of, Queue, Uniform};
use crate::sync_event::{SyncEvent, SyncEventFunctions};

verus! {

/// The access that shaders have to an image that was made with `protection`.
pub open spec fn access(protection: Protection) -> u32 {
    match protection {
        Protection::ReadOnly => READ_ONLY,
        Protection::WriteOnly => WRITE_ONLY,
        Protection::ReadWrite => READ_WRITE,
    }
}

/// The number of calls that bind `uniform`.
pub open spec fn binding_calls(uniform: Uniform) -> int {
    match uniform {
        Uniform::Buffer(_) => 2,
        Uniform::Image(_) => 6,
        Uniform::U32(_) => 1,
        Uniform::UVec4(_) => 1,
    }
}

/// Where call number `call` of the calls that bind the uniforms from `first`
/// on falls: the index of its uniform and its number among the calls that
/// bind that uniform. Past the last binding call, the number of uniforms and
/// the number of the call among those that follow the bindings.
pub open spec fn locate(uniforms: Seq<(u32, Uniform)>, first: int, call: int) -> (int, int)
    decreases uniforms.len() - first,
{
    if first < 0 || first >= uniforms.len() || call < binding_calls(uniforms[first].1) {
        (first, call)
    } else {
        locate(uniforms, first + 1, call - binding_calls(uniforms[first].1))
    }
}

/// Call number `call` of the calls that bind `uniform` to `index`, where
/// `replies` are all the replies given so far. A buffer is bound to the
/// shader storage binding point behind a barrier. An image is bound as an
/// image unit, behind a barrier, in the internal format that the driver
/// reports for it two calls earlier. A number is set as the uniform at the
/// location.
pub open spec fn binding_call(index: u32, uniform: Uniform, call: int, replies: Seq<Reply>) -> GlCall {
    match uniform {
        Uniform::Buffer(buffer) => {
            if call == 0 {
                GlCall::MemoryBarrier { barriers: SHADER_STORAGE_BARRIER_BIT }
            } else {
                GlCall::BindBufferBase { target: SHADER_STORAGE_BUFFER, index, buffer: buffer.data as u32 }
            }
        },
        Uniform::Image(image) => {
            if call == 0 {
                GlCall::MemoryBarrier {
                    barriers: TEXTURE_FETCH_BARRIER_BIT | SHADER_IMAGE_ACCESS_BARRIER_BIT,
                }
            } else if call == 1 {
                GlCall::ActiveTexture { unit: TEXTURE0 }
            } else if call == 2 {
                GlCall::BindTexture { target: TEXTURE_RECTANGLE, texture: image.data[0] as u32 }
            } else if call == 3 {
                GlCall::GetTexLevelParameteriv {
                    target: TEXTURE_RECTANGLE,
                    level: 0,
                    parameter: TEXTURE_INTERNAL_FORMAT,
                }
            } else if call == 4 {
                GlCall::BindTexture { target: TEXTURE_RECTANGLE, texture: 0 }
            } else {
                GlCall::BindImageTexture {
                    unit: index,
                    texture: image.data[0] as u32,
                    level: 0,
                    layered: FALSE,
                    layer: 0,
                    access: access(Protection::of_index(image.data[1])),
                    format: replies[replies.len() - 2].integer as u32,
                }
            }
        },
        Uniform::U32(value) => GlCall::Uniform1ui { location: index as i32, value },
        Uniform::UVec4(values) => GlCall::Uniform4ui {
            location: index as i32,
            values: (values[0], values[1], values[2], values[3]),
        },
    }
}

/// The profile event of the timer query `query`.
pub open spec fn timed(query: usize) -> ProfileEvent {
    ProfileEvent { data: query, functions: ProfileEventFunctions { backend: Backend::Gl } }
}

/// The call that begins to time with the query that `reply` holds.
pub open spec fn begin_query(reply: Reply) -> GlCall {
    GlCall::BeginQuery { target: TIME_ELAPSED, query: reply.object as u32 }
}

/// The end of a timed operation. Where it succeeded, the name of the timer
/// query that `query` holds is the profile event. Where it did not, the
/// query is deleted and the operation fails; `answered` is the number of
/// replies since the driver was asked for its error.
pub open spec fn timed_end(query: Reply, succeeded: bool, answered: int) -> StepView<ProfileEvent> {
    if succeeded {
        done(timed(query.object))
    } else if answered == 0 {
        ask(Call::Gl(GlCall::DeleteQueries { query: query.object as u32 }))
    } else {
        failed()
    }
}

/// Nothing is to release: a queue of this backend is the current context.
pub open spec fn destroy_step(this: Queue, replies: Seq<Reply>) -> StepView<()> {
    done(())
}

/// Flushes the current context, and succeeds where the driver reports no
/// error.
pub open spec fn flush_step(this: Queue, replies: Seq<Reply>) -> StepView<()> {
    if replies.len() == 0 {
        ask(Call::Gl(GlCall::Flush))
    } else if replies.len() == 1 {
        ask(Call::Gl(GlCall::GetError))
    } else {
        by_error(replies[1])
    }
}

/// Finishes the current context, and succeeds where the driver reports no
/// error.
pub open spec fn finish_step(this: Queue, replies: Seq<Reply>) -> StepView<()> {
    if replies.len() == 0 {
        ask(Call::Gl(GlCall::Finish))
    } else if replies.len() == 1 {
        ask(Call::Gl(GlCall::GetError))
    } else {
        by_error(replies[1])
    }
}

/// What follows the calls that bind the uniforms; `call` is the number of
/// the step among them and `replies` are all the replies. The driver is
/// asked for its error: an error, such as that of an index that the program
/// has no argument for, ends the operation before anything is dispatched.
/// Then the grid is dispatched inside a timer query and the driver is asked
/// for its error again.
pub open spec fn dispatch_step(num_groups: Seq<u32>, call: int, replies: Seq<Reply>) -> StepView<
    ProfileEvent,
> {
    if call == 0 {
        ask(Call::Gl(GlCall::GetError))
    } else if !no_error(replies[replies.len() - call]) {
        failed()
    } else if call == 1 {
        ask(Call::Gl(GlCall::GenQueries))
    } else if replies[replies.len() - call + 1].object == 0 {
        failed()
    } else if call == 2 {
        ask(Call::Gl(begin_query(replies[replies.len() - call + 1])))
    } else if call == 3 {
        ask(
            Call::Gl(
                GlCall::DispatchCompute {
                    groups: (
                        groups_in(num_groups, 0, 1),
                        groups_in(num_groups, 1, 1),
                        groups_in(num_groups, 2, 1),
                    ),
                },
            ),
        )
    } else if call == 4 {
        ask(Call::Gl(GlCall::EndQuery { target: TIME_ELAPSED }))
    } else if call == 5 {
        ask(Call::Gl(GlCall::GetError))
    } else {
        timed_end(
            replies[replies.len() - call + 1],
            no_error(replies[replies.len() - call + 5]),
            call - 6,
        )
    }
}

/// Makes the program current, binds the uniforms in their order, then
/// dispatches the grid inside a timer query, whose name is the profile
/// event. The operation fails, and dispatches nothing, where the driver
/// reports an error of the bindings; it fails where the driver gives no
/// query or reports an error of the dispatch. The context executes in order,
/// so the events are not looked at. A grid that cannot be dispatched ends the
/// operation before any call.
pub open spec fn submit_compute_step(
    this: Queue,
    program: Program,
    num_groups: Seq<u32>,
    uniforms: Seq<(u32, Uniform)>,
    events: Seq<SyncEvent>,
    replies: Seq<Reply>,
) -> StepView<ProfileEvent> {
    if !groups_are_valid(num_groups) {
        failed()
    } else if replies.len() == 0 {
        ask(Call::Gl(GlCall::UseProgram { program: program.data as u32 }))
    } else {
        let (uniform, call) = locate(uniforms, 0, replies.len() - 1);
        if uniform < uniforms.len() {
            ask(Call::Gl(binding_call(uniforms[uniform].0, uniforms[uniform].1, call, replies)))
        } else {
            dispatch_step(num_groups, call, replies)
        }
    }
}

/// Clears the image to `color` inside a timer query, whose name is the
/// profile event. Each channel of the color is handed over as one byte, its
/// lowest. The operation fails where the driver gives no query or reports an
/// error of the clear.
pub open spec fn submit_clear_step(
    this: Queue,
    image: Image,
    color: Color,
    events: Seq<SyncEvent>,
    replies: Seq<Reply>,
) -> StepView<ProfileEvent> {
    if replies.len() == 0 {
        ask(Call::Gl(GlCall::GenQueries))
    } else if replies[0].object == 0 {
        failed()
    } else if replies.len() == 1 {
        ask(Call::Gl(begin_query(replies[0])))
    } else if replies.len() == 2 {
        ask(
            Call::Gl(
                GlCall::ClearTexImage {
                    texture: image.data[0] as u32,
                    level: 0,
                    format: RGBA,
                    pixel_type: UNSIGNED_BYTE,
                    color: (color->0 as u8, color->1 as u8, color->2 as u8, color->3 as u8),
                },
            ),
        )
    } else if replies.len() == 3 {
        ask(Call::Gl(GlCall::EndQuery { target: TIME_ELAPSED }))
    } else if replies.len() == 4 {
        ask(Call::Gl(GlCall::GetError))
    } else {
        timed_end(replies[0], no_error(replies[4]), replies.len() - 5)
    }
}

/// Whether a read of `size` bytes from `start` can be handed to the driver:
/// both numbers fit its signed sizes.
pub open spec fn can_read(start: usize, size: int) -> bool {
    start <= isize::MAX && size <= isize::MAX
}

/// Whether the replies report that `size` bytes were read: the driver
/// reports no error and gave exactly that many bytes.
pub open spec fn was_read(replies: Seq<Reply>, size: int) -> bool {
    replies.len() >= 6 && no_error(replies[5]) && replies[3].bytes@.len() == size
}

/// Reads as many bytes as `dest` holds from `start` in `buffer` inside a
/// timer query, whose name is the profile event. The read succeeds where the
/// driver reports no error and gives exactly that many bytes.
pub open spec fn submit_read_buffer_step(
    this: Queue,
    dest: Seq<u8>,
    buffer: Buffer,
    start: usize,
    events: Seq<SyncEvent>,
    replies: Seq<Reply>,
) -> StepView<ProfileEvent> {
    if !can_read(start, dest.len() as int) {
        failed()
    } else if replies.len() == 0 {
        ask(Call::Gl(GlCall::GenQueries))
    } else if replies[0].object == 0 {
        failed()
    } else if replies.len() == 1 {
        ask(Call::Gl(begin_query(replies[0])))
    } else if replies.len() == 2 {
        ask(Call::Gl(GlCall::BindBuffer { target: COPY_READ_BUFFER, buffer: buffer.data as u32 }))
    } else if replies.len() == 3 {
        ask(
            Call::Gl(
                GlCall::GetBufferSubData {
                    target: COPY_READ_BUFFER,
                    offset: start as isize,
                    size: dest.len() as isize,
                },
            ),
        )
    } else if replies.len() == 4 {
        ask(Call::Gl(GlCall::EndQuery { target: TIME_ELAPSED }))
    } else if replies.len() == 5 {
        ask(Call::Gl(GlCall::GetError))
    } else {
        timed_end(replies[0], was_read(replies, dest.len() as int), replies.len() - 6)
    }
}

/// What `dest` holds after a step of the read: the bytes that the driver
/// read once the read has succeeded, and what it held before in any other
/// case.
pub open spec fn submit_read_buffer_dest(dest: Seq<u8>, start: usize, replies: Seq<Reply>) -> Seq<u8> {
    if can_read(start, dest.len() as int) && replies.len() >= 1 && replies[0].object != 0
        && was_read(replies, dest.len() as int) {
        replies[3].bytes@
    } else {
        dest
    }
}

/// Puts a fence into the command stream, which is the sync event. The
/// operation fails where the driver gives no fence.
pub open spec fn submit_sync_event_step(this: Queue, replies: Seq<Reply>) -> StepView<SyncEvent> {
    if replies.len() == 0 {
        ask(Call::Gl(GlCall::FenceSync { condition: SYNC_GPU_COMMANDS_COMPLETE, flags: 0 }))
    } else if replies[0].object != 0 {
        done(SyncEvent { data: replies[0].object, functions: SyncEventFunctions { backend: Backend::Gl } })
    } else {
        failed()
    }
}

/// Returns the access that shaders have to an image that was made with
/// `protection`.
pub fn access_of(protection: Protection) -> (code: u32)
    ensures
        code == access(protection),
{
    match protection {
        Protection::ReadOnly => READ_ONLY,
        Protection::WriteOnly => WRITE_ONLY,
        Protection::ReadWrite => READ_WRITE,
    }
}

/// Returns the number of calls that bind `uniform`.
pub fn count_binding_calls(uniform: &Uniform) -> (count: usize)
    ensures
        count == binding_calls(*uniform),
{
    match uniform {
        Uniform::Buffer(_) => 2,
        Uniform::Image(_) => 6,
        Uniform::U32(_) => 1,
        Uniform::UVec4(_) => 1,
    }
}

/// Returns where call number `call` of the calls that bind `uniforms` falls.
pub fn find(uniforms: &[(u32, Uniform)], call: usize) -> (place: (usize, usize))
    ensures
        (place.0 as int, place.1 as int) == locate(uniforms@, 0, call as int),
        place.0 <= uniforms@.len(),
        place.1 <= call,
{
    let mut first: usize = 0;
    let mut rest: usize = call;
    while first < uniforms.len() && rest >= count_binding_calls(&uniforms[first].1)
        invariant
            first <= uniforms@.len(),
            rest <= call,
            locate(uniforms@, first as int, rest as int) == locate(uniforms@, 0, call as int),
        decreases uniforms@.len() - first,
    {
        rest = rest - count_binding_calls(&uniforms[first].1);
        first = first + 1;
    }
    (first, rest)
}

/// Returns call number `call` of the calls that bind `uniform` to `index`.
pub(crate) fn binding_call_of(index: u32, uniform: &Uniform, call: usize, replies: &[Reply]) -> (native: GlCall)
    requires
        uniform is Image && call >= 5 ==> replies@.len() >= 2,
    ensures
        native == binding_call(index, *uniform, call as int, replies@),
{
    match uniform {
        Uniform::Buffer(buffer) => {
            if call == 0 {
                GlCall::MemoryBarrier { barriers: SHADER_STORAGE_BARRIER_BIT }
            } else {
                GlCall::BindBufferBase {
                    target: SHADER_STORAGE_BUFFER,
                    index,
                    buffer: #[verifier::truncate]
                    (buffer.data as u32),
                }
            }
        },
        Uniform::Image(image) => {
            if call == 0 {
                GlCall::MemoryBarrier {
                    barriers: TEXTURE_FETCH_BARRIER_BIT | SHADER_IMAGE_ACCESS_BARRIER_BIT,
                }
            } else if call == 1 {
                GlCall::ActiveTexture { unit: TEXTURE0 }
            } else if call == 2 {
                GlCall::BindTexture {
                    target: TEXTURE_RECTANGLE,
                    texture: #[verifier::truncate]
                    (image.data[0] as u32),
                }
            } else if call == 3 {
                GlCall::GetTexLevelParameteriv {
                    target: TEXTURE_RECTANGLE,
                    level: 0,
                    parameter: TEXTURE_INTERNAL_FORMAT,
                }
            } else if call == 4 {
                GlCall::BindTexture { target: TEXTURE_RECTANGLE, texture: 0 }
            } else {
                GlCall::BindImageTexture {
                    unit: index,
                    texture: #[verifier::truncate]
                    (image.data[0] as u32),
                    level: 0,
                    layered: FALSE,
                    layer: 0,
                    access: access_of(Protection::from_index(image.data[1])),
                    format: #[verifier::truncate]
                    (replies[replies.len() - 2].integer as u32),
                }
            }
        },
        Uniform::U32(value) => GlCall::Uniform1ui {
            location: #[verifier::truncate]
            (index as i32),
            value: *value,
        },
        Uniform::UVec4(values) => GlCall::Uniform4ui {
            location: #[verifier::truncate]
            (index as i32),
            values: (values[0], values[1], values[2], values[3]),
        },
    }
}

/// Returns the call that begins to time with the query that `reply` holds.
pub fn begin_query_of(reply: &Reply) -> (native: GlCall)
    ensures
        native == begin_query(*reply),
{
    GlCall::BeginQuery {
        target: TIME_ELAPSED,
        query: #[verifier::truncate]
        (reply.object as u32),
    }
}

/// Ends a timed operation.
pub fn end_timed(query: &Reply, succeeded: bool, answered: usize) -> (step: Step<ProfileEvent>)
    ensures
        step@ == timed_end(*query, succeeded, answered as int),
{
    if succeeded {
        Step::done(
            ProfileEvent { data: query.object, functions: ProfileEventFunctions { backend: Backend::Gl } },
        )
    } else if answered == 0 {
        Step::ask(
            Call::Gl(
                GlCall::DeleteQueries {
                    query: #[verifier::truncate]
                    (query.object as u32),
                },
            ),
        )
    } else {
        Step::failed()
    }
}

/// Nothing is to release.
pub fn destroy(this: &Queue, replies: &[Reply]) -> (step: Step<()>)
    ensures
        step@ == destroy_step(*this, replies@),
{
    Step::done(())
}

/// Submits all queued commands to the GPU.
pub fn flush(this: &Queue, replies: &[Reply]) -> (step: Step<()>)
    ensures
        step@ == flush_step(*this, replies@),
{
    if replies.len() == 0 {
        Step::ask(Call::Gl(GlCall::Flush))
    } else if replies.len() == 1 {
        Step::ask(Call::Gl(GlCall::GetError))
    } else {
        finish_by_error(&replies[1])
    }
}

/// Submits commands to the GPU and waits for them to complete.
pub fn finish(this: &Queue, replies: &[Reply]) -> (step: Step<()>)
    ensures
        step@ == finish_step(*this, replies@),
{
    if replies.len() == 0 {
        Step::ask(Call::Gl(GlCall::Finish))
    } else if replies.len() == 1 {
        Step::ask(Call::Gl(GlCall::GetError))
    } else {
        finish_by_error(&replies[1])
    }
}

/// Asks for what follows the calls that bind the uniforms.
pub(crate) fn dispatch(num_groups: &[u32], call: usize, replies: &[Reply]) -> (step: Step<ProfileEvent>)
    requires
        call < replies@.len(),
    ensures
        step@ == dispatch_step(num_groups@, call as int, replies@),
{
    let first = replies.len() - call;
    if call == 0 {
        Step::ask(Call::Gl(GlCall::GetError))
    } else if replies[first].integer != NO_ERROR {
        Step::failed()
    } else if call == 1 {
        Step::ask(Call::Gl(GlCall::GenQueries))
    } else if replies[first + 1].object == 0 {
        Step::failed()
    } else if call == 2 {
        Step::ask(Call::Gl(begin_query_of(&replies[first + 1])))
    } else if call == 3 {
        Step::ask(
            Call::Gl(
                GlCall::DispatchCompute {
                    groups: (
                        groups_of(num_groups, 0, 1),
                        groups_of(num_groups, 1, 1),
                        groups_of(num_groups, 2, 1),
                    ),
                },
            ),
        )
    } else if call == 4 {
        Step::ask(Call::Gl(GlCall::EndQuery { target: TIME_ELAPSED }))
    } else if call == 5 {
        Step::ask(Call::Gl(GlCall::GetError))
    } else {
        end_timed(&replies[first + 1], replies[first + 5].integer == NO_ERROR, call - 6)
    }
}

/// Instructs the GPU to execute the given program.
pub fn submit_compute(
    this: &Queue,
    program: &Program,
    num_groups: &[u32],
    uniforms: &[(u32, Uniform)],
    events: &[SyncEvent],
    replies: &[Reply],
) -> (step: Step<ProfileEvent>)
    ensures
        step@ == submit_compute_step(*this, *program, num_groups@, uniforms@, events@, replies@),
{
    if !check_groups(num_groups) {
        Step::failed()
    } else if replies.len() == 0 {
        Step::ask(
            Call::Gl(
                GlCall::UseProgram {
                    program: #[verifier::truncate]
                    (program.data as u32),
                },
            ),
        )
    } else {
        let (uniform, call) = find(uniforms, replies.len() - 1);
        if uniform < uniforms.len() {
            proof {
                lemma_sixth_call_has_replies(uniforms@, 0, replies@.len() - 1);
            }
            Step::ask(Call::Gl(binding_call_of(uniforms[uniform].0, &uniforms[uniform].1, call, replies)))
        } else {
            dispatch(num_groups, call, replies)
        }
    }
}

/// A call is never placed further into the bindings of a uniform than calls
/// were counted: the number of a call among those of its uniform is at most
/// its number among all.
pub proof fn lemma_sixth_call_has_replies(uniforms: Seq<(u32, Uniform)>, first: int, call: int)
    requires
        0 <= first,
        0 <= call,
    ensures
        0 <= locate(uniforms, first, call).1 <= call,
        first <= locate(uniforms, first, call).0,
        first <= uniforms.len() ==> locate(uniforms, first, call).0 <= uniforms.len(),
    decreases uniforms.len() - first,
{
    if first < 0 || first >= uniforms.len() || call < binding_calls(uniforms[first].1) {
    } else {
        lemma_sixth_call_has_replies(uniforms, first + 1, call - binding_calls(uniforms[first].1));
    }
}

/// Instructs the GPU to clear the given image to a solid color.
pub fn submit_clear(
    this: &Queue,
    image: &Image,
    color: &Color,
    events: &[SyncEvent],
    replies: &[Reply],
) -> (step: Step<ProfileEvent>)
    ensures
        step@ == submit_clear_step(*this, *image, *color, events@, replies@),
{
    if replies.len() == 0 {
        Step::ask(Call::Gl(GlCall::GenQueries))
    } else if replies[0].object == 0 {
        Step::failed()
    } else if replies.len() == 1 {
        Step::ask(Call::Gl(begin_query_of(&replies[0])))
    } else if replies.len() == 2 {
        let Color::UInt(r, g, b, a) = *color;
        Step::ask(
            Call::Gl(
                GlCall::ClearTexImage {
                    texture: #[verifier::truncate]
                    (image.data[0] as u32),
                    level: 0,
                    format: RGBA,
                    pixel_type: UNSIGNED_BYTE,
                    color: (
                        #[verifier::truncate]
                        (r as u8),
                        #[verifier::truncate]
                        (g as u8),
                        #[verifier::truncate]
                        (b as u8),
                        #[verifier::truncate]
                        (a as u8),
                    ),
                },
            ),
        )
    } else if replies.len() == 3 {
        Step::ask(Call::Gl(GlCall::EndQuery { target: TIME_ELAPSED }))
    } else if replies.len() == 4 {
        Step::ask(Call::Gl(GlCall::GetError))
    } else {
        end_timed(&replies[0], replies[4].integer == NO_ERROR, replies.len() - 5)
    }
}

/// Reads a buffer from the GPU to main memory.
pub fn submit_read_buffer(
    this: &Queue,
    dest: &mut [u8],
    buffer: &Buffer,
    start: usize,
    events: &[SyncEvent],
    replies: &[Reply],
) -> (step: Step<ProfileEvent>)
    ensures
        step@ == submit_read_buffer_step(*this, old(dest)@, *buffer, start, events@, replies@),
        final(dest)@ == submit_read_buffer_dest(old(dest)@, start, replies@),
{
    if start > isize::MAX as usize || dest.len() > isize::MAX as usize {
        Step::failed()
    } else if replies.len() == 0 {
        Step::ask(Call::Gl(GlCall::GenQueries))
    } else if replies[0].object == 0 {
        Step::failed()
    } else if replies.len() == 1 {
        Step::ask(Call::Gl(begin_query_of(&replies[0])))
    } else if replies.len() == 2 {
        Step::ask(
            Call::Gl(
                GlCall::BindBuffer {
                    target: COPY_READ_BUFFER,
                    buffer: #[verifier::truncate]
                    (buffer.data as u32),
                },
            ),
        )
    } else if replies.len() == 3 {
        Step::ask(
            Call::Gl(
                GlCall::GetBufferSubData {
                    target: COPY_READ_BUFFER,
                    offset: start as isize,
                    size: dest.len() as isize,
                },
            ),
        )
    } else if replies.len() == 4 {
        Step::ask(Call::Gl(GlCall::EndQuery { target: TIME_ELAPSED }))
    } else if replies.len() == 5 {
        Step::ask(Call::Gl(GlCall::GetError))
    } else {
        let succeeded = replies[5].integer == NO_ERROR && replies[3].bytes.len() == dest.len();
        if succeeded {
            copy_bytes(dest, replies[3].bytes.as_slice());
        }
        end_timed(&replies[0], succeeded, replies.len() - 6)
    }
}

/// Returns a sync event that can be used to wait until the GPU has finished executing all
/// commands up to the point at which this is called.
pub fn submit_sync_event(this: &Queue, replies: &[Reply]) -> (step: Step<SyncEvent>)
    ensures
        step@ == submit_sync_event_step(*this, replies@),
{
    if replies.len() == 0 {
        Step::ask(Call::Gl(GlCall::FenceSync { condition: SYNC_GPU_COMMANDS_COMPLETE, flags: 0 }))
    } else if replies[0].object != 0 {
        Step::done(
            SyncEvent { data: replies[0].object, functions: SyncEventFunctions { backend: Backend::Gl } },
        )
    } else {
        Step::failed()
    }
}

/// The calls that bind uniforms come to an end: no uniform takes more than
/// six calls, so a call whose number is six times the number of the
/// uniforms that are left, or more, falls behind the last of them.
pub proof fn lemma_bindings_end(uniforms: Seq<(u32, Uniform)>, first: int, call: int)
    requires
        0 <= first <= uniforms.len(),
        call >= 6 * (uniforms.len() - first),
    ensures
        locate(uniforms, first, call).0 == uniforms.len(),
        locate(uniforms, first, call).1 >= call - 6 * (uniforms.len() - first),
    decreases uniforms.len() - first,
{
    if first < uniforms.len() {
        lemma_bindings_end(uniforms, first + 1, call - binding_calls(uniforms[first].1));
    }
}

/// An error of the bindings dispatches nothing. Where the driver reports an
/// error after the calls that bind the uniforms, such as that of an index
/// that the program has no argument for, the operation is finished with
/// `Failed` from then on; and the grid is only ever dispatched as the fourth
/// step after the bindings, when the driver has reported no error of them
/// and has given a query.
pub proof fn failed_binding_dispatches_nothing(
    this: Queue,
    program: Program,
    num_groups: Seq<u32>,
    uniforms: Seq<(u32, Uniform)>,
    events: Seq<SyncEvent>,
    replies: Seq<Reply>,
)
    requires
        replies.len() >= 1,
    ensures
        locate(uniforms, 0, replies.len() - 1).0 == uniforms.len() && locate(
            uniforms,
            0,
            replies.len() - 1,
        ).1 >= 1 && !no_error(replies[replies.len() - locate(uniforms, 0, replies.len() - 1).1])
            ==> submit_compute_step(this, program, num_groups, uniforms, events, replies) == failed::<
            ProfileEvent,
        >(),
        submit_compute_step(this, program, num_groups, uniforms, events, replies) is Call
            && submit_compute_step(
            this,
            program,
            num_groups,
            uniforms,
            events,
            replies,
        )->Call_0.call == Call::Gl(
            GlCall::DispatchCompute {
                groups: (
                    groups_in(num_groups, 0, 1),
                    groups_in(num_groups, 1, 1),
                    groups_in(num_groups, 2, 1),
                ),
            },
        ) ==> locate(uniforms, 0, replies.len() - 1) == (uniforms.len() as int, 3int) && no_error(
            replies[replies.len() - 3],
        ) && replies[replies.len() - 2].object != 0,
{
    lemma_sixth_call_has_replies(uniforms, 0, replies.len() - 1);
    let (uniform, call) = locate(uniforms, 0, replies.len() - 1);
    if uniform < uniforms.len() {
        let native = binding_call(uniforms[uniform].0, uniforms[uniform].1, call, replies);
        assert(!(native is DispatchCompute));
    }
}

} // verus!
