//! Programs of the OpenGL backend.

use vstd::prelude::*;
use crate::api::gl::call::GlCall;
use crate::native::{ask, done, Call, Reply, Step, StepView};
use crate::program::Program;

verus! {

/// Asks the program for its shader, makes no program current, then deletes
/// the program and that shader.
pub open spec fn destroy_step(this: Program, replies: Seq<Reply>) -> StepView<()> {
    if replies.len() == 0 {
        ask(Call::Gl(GlCall::GetAttachedShaders { program: this.data as u32 }))
    } else if replies.len() == 1 {
        ask(Call::Gl(GlCall::UseProgram { program: 0 }))
    } else if replies.len() == 2 {
        ask(Call::Gl(GlCall::DeleteProgram { program: this.data as u32 }))
    } else if replies.len() == 3 {
        ask(Call::Gl(GlCall::DeleteShader { shader: replies[0].object as u32 }))
    } else {
        done(())
    }
}

/// Deletes the program and its shader.
pub fn destroy(this: &Program, replies: &[Reply]) -> (step: Step<()>)
    ensures
        step@ == destroy_step(*this, replies@),
{
    let program = #[verifier::truncate]
    (this.data as u32);
    if replies.len() == 0 {
        Step::ask(Call::Gl(GlCall::GetAttachedShaders { program }))
    } else if replies.len() == 1 {
        Step::ask(Call::Gl(GlCall::UseProgram { program: 0 }))
    } else if replies.len() == 2 {
        Step::ask(Call::Gl(GlCall::DeleteProgram { program }))
    } else if replies.len() == 3 {
        Step::ask(
            Call::Gl(
                GlCall::DeleteShader {
                    shader: #[verifier::truncate]
                    (replies[0].object as u32),
                },
            ),
        )
    } else {
        Step::done(())
    }
}

} // verus!
