//! Profile events of the OpenGL backend.

use vstd::prelude::*;
use crate::api::gl::call::{no_error, GlCall, NO_ERROR, QUERY_RESULT};
use crate::native::{ask, done, failed, Call, Reply, Step, StepView};
use crate::profile_event::ProfileEvent;

verus! {

/// Deletes the timer query: one call.
pub open spec fn destroy_step(this: ProfileEvent, replies: Seq<Reply>) -> StepView<()> {
    if replies.len() == 0 {
        ask(Call::Gl(GlCall::DeleteQueries { query: this.data as u32 }))
    } else {
        done(())
    }
}

/// Asks for the result of the timer query, which is the time that the
/// operation took; the driver waits until the result is there. Then the
/// driver is asked for its error, and the operation fails where it reports
/// one.
pub open spec fn time_elapsed_step(this: ProfileEvent, replies: Seq<Reply>) -> StepView<u64> {
    if replies.len() == 0 {
        ask(Call::Gl(GlCall::GetQueryObjectui64v { query: this.data as u32, parameter: QUERY_RESULT }))
    } else if replies.len() == 1 {
        ask(Call::Gl(GlCall::GetError))
    } else if no_error(replies[1]) {
        done(replies[0].time)
    } else {
        failed()
    }
}

/// Deletes the timer query.
pub fn destroy(this: &ProfileEvent, replies: &[Reply]) -> (step: Step<()>)
    ensures
        step@ == destroy_step(*this, replies@),
{
    if replies.len() == 0 {
        Step::ask(
            Call::Gl(
                GlCall::DeleteQueries {
                    query: #[verifier::truncate]
                    (this.data as u32),
                },
            ),
        )
    } else {
        Step::done(())
    }
}

/// Returns the time that this operation took in nanoseconds.
pub fn time_elapsed(this: &ProfileEvent, replies: &[Reply]) -> (step: Step<u64>)
    ensures
        step@ == time_elapsed_step(*this, replies@),
{
    if replies.len() == 0 {
        Step::ask(
            Call::Gl(
                GlCall::GetQueryObjectui64v {
                    query: #[verifier::truncate]
                    (this.data as u32),
                    parameter: QUERY_RESULT,
                },
            ),
        )
    } else if replies.len() == 1 {
        Step::ask(Call::Gl(GlCall::GetError))
    } else if replies[1].integer == NO_ERROR {
        Step::done(replies[0].time)
    } else {
        Step::failed()
    }
}

} // verus!
