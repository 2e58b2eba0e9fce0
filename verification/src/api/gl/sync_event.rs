//! Sync events of the OpenGL backend.

use vstd::prelude::*;
use crate::api::gl::call::{ALREADY_SIGNALED, CONDITION_SATISFIED, GlCall, SYNC_FLUSH_COMMANDS_BIT};
use crate::native::{ask, done, failed, Call, Reply, Step, StepView};
use crate::sync_event::SyncEvent;

verus! {

/// The longest time in nanoseconds that a wait lasts: a safety net against
/// a driver that never signals.
pub const TIMEOUT: u64 = 1_000_000_000_000;

/// Deletes the fence: one call.
pub open spec fn destroy_step(this: SyncEvent, replies: Seq<Reply>) -> StepView<()> {
    if replies.len() == 0 {
        ask(Call::Gl(GlCall::DeleteSync { sync: this.data }))
    } else {
        done(())
    }
}

/// Whether `reply` reports that the fence was reached: it was signaled
/// before the wait or during it. A wait that timed out or failed has not
/// reached it.
pub open spec fn reached(reply: Reply) -> bool {
    reply.integer == ALREADY_SIGNALED || reply.integer == CONDITION_SATISFIED
}

/// Waits for the fence, flushing the commands before it, for at most
/// `TIMEOUT`. The operation succeeds where the fence was reached, and fails
/// where the wait timed out or failed.
pub open spec fn wait_step(this: SyncEvent, replies: Seq<Reply>) -> StepView<()> {
    if replies.len() == 0 {
        ask(
            Call::Gl(
                GlCall::ClientWaitSync { sync: this.data, flags: SYNC_FLUSH_COMMANDS_BIT, timeout: TIMEOUT },
            ),
        )
    } else if reached(replies[0]) {
        done(())
    } else {
        failed()
    }
}

/// Deletes the fence.
pub fn destroy(this: &SyncEvent, replies: &[Reply]) -> (step: Step<()>)
    ensures
        step@ == destroy_step(*this, replies@),
{
    if replies.len() == 0 {
        Step::ask(Call::Gl(GlCall::DeleteSync { sync: this.data }))
    } else {
        Step::done(())
    }
}

/// Blocks the CPU until this event has occurred.
pub fn wait(this: &SyncEvent, replies: &[Reply]) -> (step: Step<()>)
    ensures
        step@ == wait_step(*this, replies@),
{
    if replies.len() == 0 {
        Step::ask(
            Call::Gl(
                GlCall::ClientWaitSync { sync: this.data, flags: SYNC_FLUSH_COMMANDS_BIT, timeout: TIMEOUT },
            ),
        )
    } else if replies[0].integer == ALREADY_SIGNALED || replies[0].integer == CONDITION_SATISFIED {
        Step::done(())
    } else {
        Step::failed()
    }
}

} // verus!
