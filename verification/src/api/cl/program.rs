//! Programs of the OpenCL backend.

use vstd::prelude::*;
use crate::api::cl::call::{ClCall, CL_KERNEL_PROGRAM};
use crate::native::{ask, done, Call, Reply, Step, StepView};
use crate::program::Program;

verus! {

/// Asks the kernel for its program, then releases the kernel and that
/// program. No reply but the program is looked at.
pub open spec fn destroy_step(this: Program, replies: Seq<Reply>) -> StepView<()> {
    if replies.len() == 0 {
        ask(Call::Cl(ClCall::GetKernelInfo { kernel: this.data, parameter: CL_KERNEL_PROGRAM }))
    } else if replies.len() == 1 {
        ask(Call::Cl(ClCall::ReleaseKernel { kernel: this.data }))
    } else if replies.len() == 2 {
        ask(Call::Cl(ClCall::ReleaseProgram { program: replies[0].object }))
    } else {
        done(())
    }
}

/// Releases the kernel and its program.
pub fn destroy(this: &Program, replies: &[Reply]) -> (step: Step<()>)
    ensures
        step@ == destroy_step(*this, replies@),
{
    if replies.len() == 0 {
        Step::ask(Call::Cl(ClCall::GetKernelInfo { kernel: this.data, parameter: CL_KERNEL_PROGRAM }))
    } else if replies.len() == 1 {
        Step::ask(Call::Cl(ClCall::ReleaseKernel { kernel: this.data }))
    } else if replies.len() == 2 {
        Step::ask(Call::Cl(ClCall::ReleaseProgram { program: replies[0].object }))
    } else {
        Step::done(())
    }
}

} // verus!
