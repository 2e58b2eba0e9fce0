//! Queues on which compute jobs can be submitted.

use vstd::prelude::*;
use crate::api::cl::call::ClCall;
use crate::api::cl;
use crate::api::gl;
use crate::backend::Backend;
use crate::buffer::Buffer;
use crate::image::{Color, Image};
use crate::native::{call_at, complete, done, Call, Reply, Step, StepView};
use crate::profile_event::ProfileEvent;
use crate::program::Program;
use crate::sync_event::SyncEvent;

verus! {

/// A queue on which compute jobs can be submitted.
#[derive(Debug)]
pub struct Queue {
    /// The native command queue.
    pub data: usize,
    /// The operations of the backend that created the queue.
    pub functions: QueueFunctions,
}

/// The operations on a queue, as one backend supplies them.
#[derive(Clone, Copy, Debug)]
pub struct QueueFunctions {
    pub backend: Backend,
}

/// An argument to a program.
pub enum Uniform<'a> {
    /// A reference to a GPU-side memory buffer.
    Buffer(&'a Buffer),
    /// A reference to an image on the GPU.
    Image(&'a Image),
    /// A 32-bit unsigned integer value.
    U32(u32),
    /// A vector of 4 32-bit unsigned integers.
    UVec4([u32; 4]),
}

/// Whether `num_groups` names a grid that can be dispatched: one to three
/// dimensions, none of them empty.
pub open spec fn groups_are_valid(num_groups: Seq<u32>) -> bool {
    &&& 1 <= num_groups.len() <= 3
    &&& forall|i: int| 0 <= i < num_groups.len() ==> num_groups[i] >= 1
}

/// The number of work-groups in dimension `dimension`, and `fill` in a
/// dimension that `num_groups` does not name.
pub open spec fn groups_in(num_groups: Seq<u32>, dimension: int, fill: u32) -> u32 {
    if 0 <= dimension < num_groups.len() {
        num_groups[dimension]
    } else {
        fill
    }
}

/// Returns whether `num_groups` names a grid that can be dispatched.
pub fn check_groups(num_groups: &[u32]) -> (valid: bool)
    ensures
        valid == groups_are_valid(num_groups@),
{
    if num_groups.len() < 1 || num_groups.len() > 3 {
        return false;
    }
    let mut i: usize = 0;
    while i < num_groups.len()
        invariant
            i <= num_groups@.len(),
            forall|k: int| 0 <= k < i ==> num_groups@[k] >= 1,
        decreases num_groups@.len() - i,
    {
        if num_groups[i] < 1 {
            return false;
        }
        i += 1;
    }
    true
}

/// Returns the number of work-groups in dimension `dimension`, and `fill` in
/// a dimension that `num_groups` does not name.
pub fn groups_of(num_groups: &[u32], dimension: usize, fill: u32) -> (groups: u32)
    ensures
        groups == groups_in(num_groups@, dimension as int, fill),
{
    if dimension < num_groups.len() {
        num_groups[dimension]
    } else {
        fill
    }
}

/// Copies `source` over `dest`, which has the same length.
pub(crate) fn copy_bytes(dest: &mut [u8], source: &[u8])
    requires
        old(dest)@.len() == source@.len(),
    ensures
        final(dest)@ == source@,
{
    let mut i: usize = 0;
    while i < source.len()
        invariant
            dest@.len() == source@.len(),
            i <= source@.len(),
            forall|k: int| 0 <= k < i ==> dest@[k] == source@[k],
        decreases source@.len() - i,
    {
        dest[i] = source[i];
        i += 1;
    }
    assert(dest@ =~= source@);
}

impl Queue {
    /// Makes the handle of the native queue `data`, on which `functions`
    /// operate.
    pub fn from_raw_data(data: usize, functions: QueueFunctions) -> (queue: Queue)
        ensures
            queue == (Queue { data, functions }),
    {
        Queue { data, functions }
    }

    /// Returns the native queue.
    pub fn data(&self) -> (data: usize)
        ensures
            data == self.data,
    {
        self.data
    }

    /// The step of `destroy`: that of the entry of the handle's table.
    pub open spec fn destroy_step(self, replies: Seq<Reply>) -> StepView<()> {
        self.functions.destroy_step(self, replies)
    }

    /// Releases the native queue of this queue. The handle is of no use afterwards: the program
    /// calls this once, when it drops the handle.
    pub fn destroy(&self, replies: &[Reply]) -> (step: Step<()>)
        ensures
            step@ == self.destroy_step(replies@),
    {
        self.functions.destroy(self, replies)
    }

    /// The step of `flush`: that of the entry of the handle's table.
    pub open spec fn flush_step(self, replies: Seq<Reply>) -> StepView<()> {
        self.functions.flush_step(self, replies)
    }

    /// Submits all queued commands to the GPU.
    ///
    /// This does *not* wait for the commands to finish. It does, however, guarantee that they will
    /// complete (or fail) in finite time.
    pub fn flush(&self, replies: &[Reply]) -> (step: Step<()>)
        ensures
            step@ == self.flush_step(replies@),
    {
        self.functions.flush(self, replies)
    }

    /// The step of `finish`: that of the entry of the handle's table.
    pub open spec fn finish_step(self, replies: Seq<Reply>) -> StepView<()> {
        self.functions.finish_step(self, replies)
    }

    /// Submits commands to the GPU and waits for them to complete.
    pub fn finish(&self, replies: &[Reply]) -> (step: Step<()>)
        ensures
            step@ == self.finish_step(replies@),
    {
        self.functions.finish(self, replies)
    }

    /// The step of `submit_compute`: that of the entry of the handle's table.
    pub open spec fn submit_compute_step(
        self,
        program: Program,
        num_groups: Seq<u32>,
        uniforms: Seq<(u32, Uniform)>,
        events: Seq<SyncEvent>,
        replies: Seq<Reply>,
    ) -> StepView<ProfileEvent> {
        self.functions.submit_compute_step(self, program, num_groups, uniforms, events, replies)
    }

    /// Instructs the GPU to execute the given program.
    ///
    /// * `program` specifies the program.
    ///
    /// * `num_groups` specifies the number of workgroups in each dimension. It must be an array of
    ///   between 1 and 3 nonzero values; any other array fails.
    ///
    /// * `uniforms` specifies the values of arguments used to invoke the program. The first
    ///   element in the tuple is the argument index; the second is the actual value of the
    ///   argument (see `Uniform`).
    ///
    /// * `events` is a list of sync events that must complete before execution of this program can
    ///   begin.
    ///
    /// Returns a profiling event that can be used to time the execution of this program.
    pub fn submit_compute(
        &self,
        program: &Program,
        num_groups: &[u32],
        uniforms: &[(u32, Uniform)],
        events: &[SyncEvent],
        replies: &[Reply],
    ) -> (step: Step<ProfileEvent>)
        ensures
            step@ == self.submit_compute_step(*program, num_groups@, uniforms@, events@, replies@),
    {
        self.functions.submit_compute(self, program, num_groups, uniforms, events, replies)
    }

    /// The step of `submit_clear`: that of the entry of the handle's table.
    pub open spec fn submit_clear_step(
        self,
        image: Image,
        color: Color,
        events: Seq<SyncEvent>,
        replies: Seq<Reply>,
    ) -> StepView<ProfileEvent> {
        self.functions.submit_clear_step(self, image, color, events, replies)
    }

    /// Instructs the GPU to clear the given image to a solid color.
    ///
    /// * `image` specifies the image to clear.
    ///
    /// * `color` specifies the color to fill with.
    ///
    /// * `events` is a list of sync events that must complete before this operation can begin.
    ///
    /// Returns a profiling event that can be used to query how long it took to clear the image.
    pub fn submit_clear(
        &self,
        image: &Image,
        color: &Color,
        events: &[SyncEvent],
        replies: &[Reply],
    ) -> (step: Step<ProfileEvent>)
        ensures
            step@ == self.submit_clear_step(*image, *color, events@, replies@),
    {
        self.functions.submit_clear(self, image, color, events, replies)
    }

    /// The step of `submit_sync_event`: that of the entry of the handle's table.
    pub open spec fn submit_sync_event_step(self, replies: Seq<Reply>) -> StepView<SyncEvent> {
        self.functions.submit_sync_event_step(self, replies)
    }

    /// Returns a sync event that can be used to wait until the GPU has finished executing all
    /// commands up to the point at which this is called.
    pub fn submit_sync_event(&self, replies: &[Reply]) -> (step: Step<SyncEvent>)
        ensures
            step@ == self.submit_sync_event_step(replies@),
    {
        self.functions.submit_sync_event(self, replies)
    }

    /// The step of `submit_read_buffer`: that of the entry of the handle's table.
    pub open spec fn submit_read_buffer_step(
        self,
        dest: Seq<u8>,
        buffer: Buffer,
        start: usize,
        events: Seq<SyncEvent>,
        replies: Seq<Reply>,
    ) -> StepView<ProfileEvent> {
        self.functions.submit_read_buffer_step(self, dest, buffer, start, events, replies)
    }

    /// What the destination of `submit_read_buffer` holds after a step: the
    /// bytes that the driver read once the read has succeeded, and what it
    /// held before in any other case.
    pub open spec fn submit_read_buffer_dest(self, dest: Seq<u8>, start: usize, replies: Seq<Reply>) -> Seq<
        u8,
    > {
        self.functions.submit_read_buffer_dest(dest, start, replies)
    }

    /// Reads a buffer from the GPU to main memory.
    ///
    /// * `dest` specifies the buffer to read to.
    ///
    /// * `buffer` specifies the buffer to read from.
    ///
    /// * `start` specifies the position in the buffer to begin reading from.
    ///
    /// * `events` is a list of sync events that must complete before this operation can begin.
    ///
    /// Returns a profiling event that can be used to query how long this operation took.
    ///
    /// The driver blocks until completion.
    pub fn submit_read_buffer(
        &self,
        dest: &mut [u8],
        buffer: &Buffer,
        start: usize,
        events: &[SyncEvent],
        replies: &[Reply],
    ) -> (step: Step<ProfileEvent>)
        ensures
            step@ == self.submit_read_buffer_step(old(dest)@, *buffer, start, events@, replies@),
            final(dest)@ == self.submit_read_buffer_dest(old(dest)@, start, replies@),
    {
        self.functions.submit_read_buffer(self, dest, buffer, start, events, replies)
    }
}

impl QueueFunctions {
    /// The step of `destroy`, as the backend of this table takes it.
    pub open spec fn destroy_step(self, this: Queue, replies: Seq<Reply>) -> StepView<()> {
        match self.backend {
            Backend::Cl => cl::queue::destroy_step(this, replies),
            Backend::Gl => gl::queue::destroy_step(this, replies),
        }
    }

    /// The entry that releases the native queue.
    pub fn destroy(&self, this: &Queue, replies: &[Reply]) -> (step: Step<()>)
        ensures
            step@ == self.destroy_step(*this, replies@),
    {
        match self.backend {
            Backend::Cl => cl::queue::destroy(this, replies),
            Backend::Gl => gl::queue::destroy(this, replies),
        }
    }

    /// The step of `flush`, as the backend of this table takes it.
    pub open spec fn flush_step(self, this: Queue, replies: Seq<Reply>) -> StepView<()> {
        match self.backend {
            Backend::Cl => cl::queue::flush_step(this, replies),
            Backend::Gl => gl::queue::flush_step(this, replies),
        }
    }

    /// The entry that flushes the queue.
    pub fn flush(&self, this: &Queue, replies: &[Reply]) -> (step: Step<()>)
        ensures
            step@ == self.flush_step(*this, replies@),
    {
        match self.backend {
            Backend::Cl => cl::queue::flush(this, replies),
            Backend::Gl => gl::queue::flush(this, replies),
        }
    }

    /// The step of `finish`, as the backend of this table takes it.
    pub open spec fn finish_step(self, this: Queue, replies: Seq<Reply>) -> StepView<()> {
        match self.backend {
            Backend::Cl => cl::queue::finish_step(this, replies),
            Backend::Gl => gl::queue::finish_step(this, replies),
        }
    }

    /// The entry that finishes the queue.
    pub fn finish(&self, this: &Queue, replies: &[Reply]) -> (step: Step<()>)
        ensures
            step@ == self.finish_step(*this, replies@),
    {
        match self.backend {
            Backend::Cl => cl::queue::finish(this, replies),
            Backend::Gl => gl::queue::finish(this, replies),
        }
    }

    /// The step of `submit_compute`, as the backend of this table takes it.
    pub open spec fn submit_compute_step(
        self,
        this: Queue,
        program: Program,
        num_groups: Seq<u32>,
        uniforms: Seq<(u32, Uniform)>,
        events: Seq<SyncEvent>,
        replies: Seq<Reply>,
    ) -> StepView<ProfileEvent> {
        match self.backend {
            Backend::Cl => cl::queue::submit_compute_step(this, program, num_groups, uniforms, events, replies),
            Backend::Gl => gl::queue::submit_compute_step(this, program, num_groups, uniforms, events, replies),
        }
    }

    /// The entry that dispatches a program.
    pub fn submit_compute(
        &self,
        this: &Queue,
        program: &Program,
        num_groups: &[u32],
        uniforms: &[(u32, Uniform)],
        events: &[SyncEvent],
        replies: &[Reply],
    ) -> (step: Step<ProfileEvent>)
        ensures
            step@ == self.submit_compute_step(*this, *program, num_groups@, uniforms@, events@, replies@),
    {
        match self.backend {
            Backend::Cl => cl::queue::submit_compute(this, program, num_groups, uniforms, events, replies),
            Backend::Gl => gl::queue::submit_compute(this, program, num_groups, uniforms, events, replies),
        }
    }

    /// The step of `submit_clear`, as the backend of this table takes it.
    pub open spec fn submit_clear_step(
        self,
        this: Queue,
        image: Image,
        color: Color,
        events: Seq<SyncEvent>,
        replies: Seq<Reply>,
    ) -> StepView<ProfileEvent> {
        match self.backend {
            Backend::Cl => cl::queue::submit_clear_step(this, image, color, events, replies),
            Backend::Gl => gl::queue::submit_clear_step(this, image, color, events, replies),
        }
    }

    /// The entry that clears an image.
    pub fn submit_clear(
        &self,
        this: &Queue,
        image: &Image,
        color: &Color,
        events: &[SyncEvent],
        replies: &[Reply],
    ) -> (step: Step<ProfileEvent>)
        ensures
            step@ == self.submit_clear_step(*this, *image, *color, events@, replies@),
    {
        match self.backend {
            Backend::Cl => cl::queue::submit_clear(this, image, color, events, replies),
            Backend::Gl => gl::queue::submit_clear(this, image, color, events, replies),
        }
    }

    /// The step of `submit_sync_event`, as the backend of this table takes it.
    pub open spec fn submit_sync_event_step(
        self,
        this: Queue,
        replies: Seq<Reply>,
    ) -> StepView<SyncEvent> {
        match self.backend {
            Backend::Cl => cl::queue::submit_sync_event_step(this, replies),
            Backend::Gl => gl::queue::submit_sync_event_step(this, replies),
        }
    }

    /// The entry that marks a point of the command stream.
    pub fn submit_sync_event(&self, this: &Queue, replies: &[Reply]) -> (step: Step<SyncEvent>)
        ensures
            step@ == self.submit_sync_event_step(*this, replies@),
    {
        match self.backend {
            Backend::Cl => cl::queue::submit_sync_event(this, replies),
            Backend::Gl => gl::queue::submit_sync_event(this, replies),
        }
    }

    /// The step of `submit_read_buffer`, as the backend of this table takes it.
    pub open spec fn submit_read_buffer_step(
        self,
        this: Queue,
        dest: Seq<u8>,
        buffer: Buffer,
        start: usize,
        events: Seq<SyncEvent>,
        replies: Seq<Reply>,
    ) -> StepView<ProfileEvent> {
        match self.backend {
            Backend::Cl => cl::queue::submit_read_buffer_step(this, dest, buffer, start, events, replies),
            Backend::Gl => gl::queue::submit_read_buffer_step(this, dest, buffer, start, events, replies),
        }
    }

    /// What the destination of `submit_read_buffer` holds after a step, as
    /// the backend of this table leaves it.
    pub open spec fn submit_read_buffer_dest(self, dest: Seq<u8>, start: usize, replies: Seq<Reply>) -> Seq<
        u8,
    > {
        match self.backend {
            Backend::Cl => cl::queue::submit_read_buffer_dest(dest, replies),
            Backend::Gl => gl::queue::submit_read_buffer_dest(dest, start, replies),
        }
    }

    /// The entry that reads a buffer back.
    pub fn submit_read_buffer(
        &self,
        this: &Queue,
        dest: &mut [u8],
        buffer: &Buffer,
        start: usize,
        events: &[SyncEvent],
        replies: &[Reply],
    ) -> (step: Step<ProfileEvent>)
        ensures
            step@ == self.submit_read_buffer_step(*this, old(dest)@, *buffer, start, events@, replies@),
            final(dest)@ == self.submit_read_buffer_dest(old(dest)@, start, replies@),
    {
        match self.backend {
            Backend::Cl => cl::queue::submit_read_buffer(this, dest, buffer, start, events, replies),
            Backend::Gl => gl::queue::submit_read_buffer(this, dest, buffer, start, events, replies),
        }
    }
}

/// Destroying a queue releases its native queue exactly once. On the
/// OpenCL backend every run of the operation consists of one call, which is
/// that release; on the OpenGL backend the queue is the current context,
/// which is not this library's to release, and a run consists of no call.
/// The operation ends well whatever the driver replies.
pub proof fn destroy_releases_once(queue: Queue, replies: Seq<Reply>)
    requires
        complete(|r: Seq<Reply>| queue.destroy_step(r), replies),
    ensures
        queue.functions.backend == Backend::Cl ==> replies.len() == 1 && call_at(
            |r: Seq<Reply>| queue.destroy_step(r),
            replies,
            0,
        ) == Call::Cl(ClCall::ReleaseCommandQueue { queue: queue.data }),
        queue.functions.backend == Backend::Gl ==> replies.len() == 0,
        queue.destroy_step(replies) == done(()),
{
    let step = |r: Seq<Reply>| queue.destroy_step(r);
    assert(step(replies) is Done);
    if replies.len() > 0 {
        assert(step(replies.take(0)) is Call);
    }
    if replies.len() > 1 {
        assert(step(replies.take(1)) is Call);
    }
}

/// What a queue submits belongs to the backend of the queue.
pub proof fn submissions_keep_backend(
    queue: Queue,
    program: Program,
    num_groups: Seq<u32>,
    uniforms: Seq<(u32, Uniform)>,
    image: Image,
    color: Color,
    dest: Seq<u8>,
    buffer: Buffer,
    start: usize,
    events: Seq<SyncEvent>,
    replies: Seq<Reply>,
)
    ensures
        queue.submit_compute_step(program, num_groups, uniforms, events, replies) matches StepView::Done(
            Ok(event),
        ) ==> event.functions.backend == queue.functions.backend,
        queue.submit_clear_step(image, color, events, replies) matches StepView::Done(Ok(event))
            ==> event.functions.backend == queue.functions.backend,
        queue.submit_read_buffer_step(dest, buffer, start, events, replies) matches StepView::Done(
            Ok(event),
        ) ==> event.functions.backend == queue.functions.backend,
        queue.submit_sync_event_step(replies) matches StepView::Done(Ok(event))
            ==> event.functions.backend == queue.functions.backend,
{
}

/// A read never changes how many bytes the destination holds, and changes
/// them only when it succeeds: while the operation asks for calls, and when
/// it fails, the destination holds what it held before. When it succeeds the
/// destination holds exactly the bytes that the driver read: those of its
/// reply to the call that reads, the first call on the OpenCL backend and the
/// fourth on the OpenGL backend.
pub proof fn read_back_is_all_or_nothing(
    queue: Queue,
    dest: Seq<u8>,
    buffer: Buffer,
    start: usize,
    events: Seq<SyncEvent>,
    replies: Seq<Reply>,
)
    ensures
        queue.submit_read_buffer_dest(dest, start, replies).len() == dest.len(),
        !(queue.submit_read_buffer_step(dest, buffer, start, events, replies) matches StepView::Done(
            Ok(_),
        )) ==> queue.submit_read_buffer_dest(dest, start, replies) == dest,
        queue.submit_read_buffer_step(dest, buffer, start, events, replies) matches StepView::Done(
            Ok(_),
        ) ==> queue.submit_read_buffer_dest(dest, start, replies) == (match queue.functions.backend {
            Backend::Cl => replies[0].bytes@,
            Backend::Gl => replies[3].bytes@,
        }),
{
}

/// Every operation on a queue ends: it is finished once the driver has
/// replied often enough, whatever it replied. A dispatch takes at most six
/// calls for each uniform and eight more; no other operation takes more than
/// seven calls.
pub proof fn operations_finish(
    queue: Queue,
    program: Program,
    num_groups: Seq<u32>,
    uniforms: Seq<(u32, Uniform)>,
    image: Image,
    color: Color,
    dest: Seq<u8>,
    buffer: Buffer,
    start: usize,
    events: Seq<SyncEvent>,
    replies: Seq<Reply>,
)
    ensures
        replies.len() >= 1 ==> queue.destroy_step(replies) is Done && queue.submit_sync_event_step(
            replies,
        ) is Done,
        replies.len() >= 2 ==> queue.flush_step(replies) is Done && queue.finish_step(replies) is Done,
        replies.len() >= 6 ==> queue.submit_clear_step(image, color, events, replies) is Done,
        replies.len() >= 7 ==> queue.submit_read_buffer_step(dest, buffer, start, events, replies)
            is Done,
        replies.len() >= 6 * uniforms.len() + 8 ==> queue.submit_compute_step(
            program,
            num_groups,
            uniforms,
            events,
            replies,
        ) is Done,
{
    if replies.len() >= 6 * uniforms.len() + 8 {
        gl::queue::lemma_bindings_end(uniforms, 0, replies.len() - 1);
    }
}

} // verus!
