//! Sync events of the OpenCL backend.

use vstd::prelude::*;
use crate::api::cl::call::{by_status, finish_by_status, ClCall};
use crate::native::{ask, done, Call, Reply, Step, StepView};
use crate::sync_event::SyncEvent;

verus! {

/// Releases the native event: one call, whose reply is not looked at.
pub open spec fn destroy_step(this: SyncEvent, replies: Seq<Reply>) -> StepView<()> {
    if replies.len() == 0 {
        ask(Call::Cl(ClCall::ReleaseEvent { event: this.data }))
    } else {
        done(())
    }
}

/// Waits for the native event, and succeeds where the driver does.
pub open spec fn wait_step(this: SyncEvent, replies: Seq<Reply>) -> StepView<()> {
    if replies.len() == 0 {
        ask(Call::Cl(ClCall::WaitForEvents { event: this.data }))
    } else {
        by_status(replies[0])
    }
}

/// Releases the native event.
pub fn destroy(this: &SyncEvent, replies: &[Reply]) -> (step: Step<()>)
    ensures
        step@ == destroy_step(*this, replies@),
{
    if replies.len() == 0 {
        Step::ask(Call::Cl(ClCall::ReleaseEvent { event: this.data }))
    } else {
        Step::done(())
    }
}

/// Blocks the CPU until this event has occurred.
pub fn wait(this: &SyncEvent, replies: &[Reply]) -> (step: Step<()>)
    ensures
        step@ == wait_step(*this, replies@),
{
    if replies.len() == 0 {
        Step::ask(Call::Cl(ClCall::WaitForEvents { event: this.data }))
    } else {
        finish_by_status(&replies[0])
    }
}

} // verus!
