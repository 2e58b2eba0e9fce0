//! Objects that can be used to query how long GPU operations took.

use vstd::prelude::*;
use crate::api::cl::call::ClCall;
use crate::api::cl;
use crate::api::gl::call::GlCall;
use crate::api::gl;
use crate::backend::Backend;
use crate::native::{call_at, complete, done, Call, Reply, Step, StepView};

verus! {

/// An object that can be used to query how long GPU operations took.
#[derive(Debug)]
pub struct ProfileEvent {
    /// The native event or query.
    pub data: usize,
    /// The operations of the backend that created the event.
    pub functions: ProfileEventFunctions,
}

/// The operations on a profile event, as one backend supplies them.
#[derive(Clone, Copy, Debug)]
pub struct ProfileEventFunctions {
    pub backend: Backend,
}

impl ProfileEvent {
    /// Makes the handle of the native event `data`, on which `functions`
    /// operate.
    pub fn from_raw_data(data: usize, functions: ProfileEventFunctions) -> (event: ProfileEvent)
        ensures
            event == (ProfileEvent { data, functions }),
    {
        ProfileEvent { data, functions }
    }

    /// Returns the native event.
    pub fn data(&self) -> (data: usize)
        ensures
            data == self.data,
    {
        self.data
    }

    /// The step of `destroy`: that of the entry of the handle's table.
    pub open spec fn destroy_step(self, replies: Seq<Reply>) -> StepView<()> {
        self.functions.destroy_step(self, replies)
    }

    /// Releases the native event of this event. The handle is of no use afterwards: the program
    /// calls this once, when it drops the handle.
    pub fn destroy(&self, replies: &[Reply]) -> (step: Step<()>)
        ensures
            step@ == self.destroy_step(replies@),
    {
        self.functions.destroy(self, replies)
    }

    /// The step of `time_elapsed`: that of the entry of the handle's table.
    pub open spec fn time_elapsed_step(self, replies: Seq<Reply>) -> StepView<u64> {
        self.functions.time_elapsed_step(self, replies)
    }

    /// Returns the time that this operation took in nanoseconds.
    ///
    /// If the operation has not yet completed, the driver blocks until it completes.
    pub fn time_elapsed(&self, replies: &[Reply]) -> (step: Step<u64>)
        ensures
            step@ == self.time_elapsed_step(replies@),
    {
        self.functions.time_elapsed(self, replies)
    }
}

impl ProfileEventFunctions {
    /// The step of `destroy`, as the backend of this table takes it.
    pub open spec fn destroy_step(self, this: ProfileEvent, replies: Seq<Reply>) -> StepView<()> {
        match self.backend {
            Backend::Cl => cl::profile_event::destroy_step(this, replies),
            Backend::Gl => gl::profile_event::destroy_step(this, replies),
        }
    }

    /// The entry that releases the native event.
    pub fn destroy(&self, this: &ProfileEvent, replies: &[Reply]) -> (step: Step<()>)
        ensures
            step@ == self.destroy_step(*this, replies@),
    {
        match self.backend {
            Backend::Cl => cl::profile_event::destroy(this, replies),
            Backend::Gl => gl::profile_event::destroy(this, replies),
        }
    }

    /// The step of `time_elapsed`, as the backend of this table takes it.
    pub open spec fn time_elapsed_step(self, this: ProfileEvent, replies: Seq<Reply>) -> StepView<u64> {
        match self.backend {
            Backend::Cl => cl::profile_event::time_elapsed_step(this, replies),
            Backend::Gl => gl::profile_event::time_elapsed_step(this, replies),
        }
    }

    /// The entry that asks how long the operation took.
    pub fn time_elapsed(&self, this: &ProfileEvent, replies: &[Reply]) -> (step: Step<u64>)
        ensures
            step@ == self.time_elapsed_step(*this, replies@),
    {
        match self.backend {
            Backend::Cl => cl::profile_event::time_elapsed(this, replies),
            Backend::Gl => gl::profile_event::time_elapsed(this, replies),
        }
    }
}

/// The native call that releases the event of `event`.
pub open spec fn release_call(event: ProfileEvent) -> Call {
    match event.functions.backend {
        Backend::Cl => Call::Cl(ClCall::ReleaseEvent { event: event.data }),
        Backend::Gl => Call::Gl(GlCall::DeleteQueries { query: event.data as u32 }),
    }
}

/// Destroying an profile event releases its native event exactly once: every run of
/// the operation consists of one call, which is that release, and ends well
/// whatever the driver replies.
pub proof fn destroy_releases_once(event: ProfileEvent, replies: Seq<Reply>)
    requires
        complete(|r: Seq<Reply>| event.destroy_step(r), replies),
    ensures
        replies.len() == 1,
        call_at(|r: Seq<Reply>| event.destroy_step(r), replies, 0) == release_call(event),
        event.destroy_step(replies) == done(()),
{
    let step = |r: Seq<Reply>| event.destroy_step(r);
    assert(step(replies) is Done);
    if replies.len() > 1 {
        assert(step(replies.take(1)) is Call);
    }
}

/// Asking for the time of an operation ends: it is finished once the driver
/// has replied three times, whatever it replied.
pub proof fn time_elapsed_finishes(event: ProfileEvent, replies: Seq<Reply>)
    requires
        replies.len() >= 3,
    ensures
        event.time_elapsed_step(replies) is Done,
{
}

} // verus!
