//! Buffers of the OpenGL backend.

use vstd::prelude::*;
use crate::api::gl::call::GlCall;
use crate::buffer::Buffer;
use crate::native::{ask, done, Call, Reply, Step, StepView};

verus! {

/// Deletes the native buffer: one call.
pub open spec fn destroy_step(this: Buffer, replies: Seq<Reply>) -> StepView<()> {
    if replies.len() == 0 {
        ask(Call::Gl(GlCall::DeleteBuffers { buffer: this.data as u32 }))
    } else {
        done(())
    }
}

/// Deletes the native buffer.
pub fn destroy(this: &Buffer, replies: &[Reply]) -> (step: Step<()>)
    ensures
        step@ == destroy_step(*this, replies@),
{
    if replies.len() == 0 {
        Step::ask(
            Call::Gl(
                GlCall::DeleteBuffers {
                    buffer: #[verifier::truncate]
                    (this.data as u32),
                },
            ),
        )
    } else {
        Step::done(())
    }
}

} // verus!
