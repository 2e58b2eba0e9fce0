//! Buffers of the OpenCL backend.

use vstd::prelude::*;
use crate::api::cl::call::ClCall;
use crate::buffer::Buffer;
use crate::native::{ask, done, Call, Reply, Step, StepView};

verus! {

/// Releases the native memory object: one call, whose reply is not looked at.
pub open spec fn destroy_step(this: Buffer, replies: Seq<Reply>) -> StepView<()> {
    if replies.len() == 0 {
        ask(Call::Cl(ClCall::ReleaseMemObject { memory: this.data }))
    } else {
        done(())
    }
}

/// Releases the native memory object.
pub fn destroy(this: &Buffer, replies: &[Reply]) -> (step: Step<()>)
    ensures
        step@ == destroy_step(*this, replies@),
{
    if replies.len() == 0 {
        Step::ask(Call::Cl(ClCall::ReleaseMemObject { memory: this.data }))
    } else {
        Step::done(())
    }
}

} // verus!
