//! Profile events of the OpenCL backend.

use vstd::prelude::*;
use crate::api::cl::call::{ClCall, CL_PROFILING_COMMAND_END, CL_PROFILING_COMMAND_START, CL_SUCCESS};
use crate::native::{ask, done, failed, Call, Reply, Step, StepView};
use crate::profile_event::ProfileEvent;

verus! {

/// Releases the native event: one call, whose reply is not looked at.
pub open spec fn destroy_step(this: ProfileEvent, replies: Seq<Reply>) -> StepView<()> {
    if replies.len() == 0 {
        ask(Call::Cl(ClCall::ReleaseEvent { event: this.data }))
    } else {
        done(())
    }
}

/// Waits for the command, then asks for the times at which it started and
/// ended; the time that it took is their difference. The operation fails
/// where the driver does, and where it reports an end before the start.
pub open spec fn time_elapsed_step(this: ProfileEvent, replies: Seq<Reply>) -> StepView<u64> {
    if replies.len() == 0 {
        ask(Call::Cl(ClCall::WaitForEvents { event: this.data }))
    } else if replies[0].integer != CL_SUCCESS {
        failed()
    } else if replies.len() == 1 {
        ask(
            Call::Cl(
                ClCall::GetEventProfilingInfo { event: this.data, parameter: CL_PROFILING_COMMAND_START },
            ),
        )
    } else if replies[1].integer != CL_SUCCESS {
        failed()
    } else if replies.len() == 2 {
        ask(
            Call::Cl(
                ClCall::GetEventProfilingInfo { event: this.data, parameter: CL_PROFILING_COMMAND_END },
            ),
        )
    } else if replies[2].integer != CL_SUCCESS || replies[2].time < replies[1].time {
        failed()
    } else {
        done((replies[2].time - replies[1].time) as u64)
    }
}

/// Releases the native event.
pub fn destroy(this: &ProfileEvent, replies: &[Reply]) -> (step: Step<()>)
    ensures
        step@ == destroy_step(*this, replies@),
{
    if replies.len() == 0 {
        Step::ask(Call::Cl(ClCall::ReleaseEvent { event: this.data }))
    } else {
        Step::done(())
    }
}

/// Returns the time that this operation took in nanoseconds.
pub fn time_elapsed(this: &ProfileEvent, replies: &[Reply]) -> (step: Step<u64>)
    ensures
        step@ == time_elapsed_step(*this, replies@),
{
    if replies.len() == 0 {
        Step::ask(Call::Cl(ClCall::WaitForEvents { event: this.data }))
    } else if replies[0].integer != CL_SUCCESS {
        Step::failed()
    } else if replies.len() == 1 {
        Step::ask(
            Call::Cl(
                ClCall::GetEventProfilingInfo { event: this.data, parameter: CL_PROFILING_COMMAND_START },
            ),
        )
    } else if replies[1].integer != CL_SUCCESS {
        Step::failed()
    } else if replies.len() == 2 {
        Step::ask(
            Call::Cl(
                ClCall::GetEventProfilingInfo { event: this.data, parameter: CL_PROFILING_COMMAND_END },
            ),
        )
    } else if replies[2].integer != CL_SUCCESS || replies[2].time < replies[1].time {
        Step::failed()
    } else {
        Step::done(replies[2].time - replies[1].time)
    }
}

} // verus!
