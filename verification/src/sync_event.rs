//! Events (a.k.a. fences) that can be waited on.

use vstd::prelude::*;
use crate::api::cl::call::{ClCall, CL_SUCCESS};
use crate::api::cl;
use crate::api::gl::call::GlCall;
use crate::api::gl;
use crate::backend::Backend;
use crate::native::{call_at, complete, done, Call, Reply, Step, StepView};

verus! {

/// An event (a.k.a. fence) that can be waited on.
#[derive(Debug)]
pub struct SyncEvent {
    /// The native event or fence.
    pub data: usize,
    /// The operations of the backend that created the event.
    pub functions: SyncEventFunctions,
}

/// The operations on a sync event, as one backend supplies them.
#[derive(Clone, Copy, Debug)]
pub struct SyncEventFunctions {
    pub backend: Backend,
}

impl SyncEvent {
    /// Makes the handle of the native event `data`, on which `functions`
    /// operate.
    pub fn from_raw_data(data: usize, functions: SyncEventFunctions) -> (event: SyncEvent)
        ensures
            event == (SyncEvent { data, functions }),
    {
        SyncEvent { data, functions }
    }

    /// Returns the native event.
    pub fn data(&self) -> (data: usize)
        ensures
            data == self.data,
    {
        self.data
    }

    /// The step of `destroy`: that of the entry of the handle's table.
    pub open spec fn destroy_step(self, replies: Seq<Reply>) -> StepView<()> {
        self.functions.destroy_step(self, replies)
    }

    /// Releases the native event of this event. The handle is of no use afterwards: the program
    /// calls this once, when it drops the handle.
    pub fn destroy(&self, replies: &[Reply]) -> (step: Step<()>)
        ensures
            step@ == self.destroy_step(replies@),
    {
        self.functions.destroy(self, replies)
    }

    /// The step of `wait`: that of the entry of the handle's table.
    pub open spec fn wait_step(self, replies: Seq<Reply>) -> StepView<()> {
        self.functions.wait_step(self, replies)
    }

    /// Blocks the CPU until this event has occurred.
    pub fn wait(&self, replies: &[Reply]) -> (step: Step<()>)
        ensures
            step@ == self.wait_step(replies@),
    {
        self.functions.wait(self, replies)
    }
}

impl SyncEventFunctions {
    /// The step of `destroy`, as the backend of this table takes it.
    pub open spec fn destroy_step(self, this: SyncEvent, replies: Seq<Reply>) -> StepView<()> {
        match self.backend {
            Backend::Cl => cl::sync_event::destroy_step(this, replies),
            Backend::Gl => gl::sync_event::destroy_step(this, replies),
        }
    }

    /// The entry that releases the native event.
    pub fn destroy(&self, this: &SyncEvent, replies: &[Reply]) -> (step: Step<()>)
        ensures
            step@ == self.destroy_step(*this, replies@),
    {
        match self.backend {
            Backend::Cl => cl::sync_event::destroy(this, replies),
            Backend::Gl => gl::sync_event::destroy(this, replies),
        }
    }

    /// The step of `wait`, as the backend of this table takes it.
    pub open spec fn wait_step(self, this: SyncEvent, replies: Seq<Reply>) -> StepView<()> {
        match self.backend {
            Backend::Cl => cl::sync_event::wait_step(this, replies),
            Backend::Gl => gl::sync_event::wait_step(this, replies),
        }
    }

    /// The entry that waits for the event.
    pub fn wait(&self, this: &SyncEvent, replies: &[Reply]) -> (step: Step<()>)
        ensures
            step@ == self.wait_step(*this, replies@),
    {
        match self.backend {
            Backend::Cl => cl::sync_event::wait(this, replies),
            Backend::Gl => gl::sync_event::wait(this, replies),
        }
    }
}

/// The native call that releases the event of `event`.
pub open spec fn release_call(event: SyncEvent) -> Call {
    match event.functions.backend {
        Backend::Cl => Call::Cl(ClCall::ReleaseEvent { event: event.data }),
        Backend::Gl => Call::Gl(GlCall::DeleteSync { sync: event.data }),
    }
}

/// Destroying an sync event releases its native event exactly once: every run of
/// the operation consists of one call, which is that release, and ends well
/// whatever the driver replies.
pub proof fn destroy_releases_once(event: SyncEvent, replies: Seq<Reply>)
    requires
        complete(|r: Seq<Reply>| event.destroy_step(r), replies),
    ensures
        replies.len() == 1,
        call_at(|r: Seq<Reply>| event.destroy_step(r), replies, 0) == release_call(event),
        event.destroy_step(replies) == done(()),
{
    let step = |r: Seq<Reply>| event.destroy_step(r);
    assert(step(replies) is Done);
    if replies.len() > 1 {
        assert(step(replies.take(1)) is Call);
    }
}

/// A wait ends: it is finished once the driver has replied. It ends well
/// exactly where the driver reports that the event was reached: by its
/// status on the OpenCL backend, and on the OpenGL backend by a fence that
/// was signaled, not by a wait that timed out or failed.
pub proof fn wait_finishes(event: SyncEvent, replies: Seq<Reply>)
    requires
        replies.len() >= 1,
    ensures
        event.wait_step(replies) is Done,
        event.wait_step(replies) == done(()) <==> (match event.functions.backend {
            Backend::Cl => replies[0].integer == CL_SUCCESS,
            Backend::Gl => gl::sync_event::reached(replies[0]),
        }),
{
}

} // verus!
