//! Programs to be run on the GPU.

use vstd::prelude::*;
use crate::api::cl::call::ClCall;
use crate::api::cl;
use crate::api::gl::call::GlCall;
use crate::api::gl;
use crate::backend::Backend;
use crate::native::{call_at, complete, done, Call, Reply, Step, StepView};

verus! {

/// A program to be run on the GPU.
#[derive(Debug)]
pub struct Program {
    /// The native kernel or program object.
    pub data: usize,
    /// The operations of the backend that created the program.
    pub functions: ProgramFunctions,
}

/// The operations on a program, as one backend supplies them.
#[derive(Clone, Copy, Debug)]
pub struct ProgramFunctions {
    pub backend: Backend,
}

impl Program {
    /// Makes the handle of the native program `data`, on which `functions`
    /// operate.
    pub fn from_raw_data(data: usize, functions: ProgramFunctions) -> (program: Program)
        ensures
            program == (Program { data, functions }),
    {
        Program { data, functions }
    }

    /// Returns the native program.
    pub fn data(&self) -> (data: usize)
        ensures
            data == self.data,
    {
        self.data
    }

    /// The step of `destroy`: that of the entry of the handle's table.
    pub open spec fn destroy_step(self, replies: Seq<Reply>) -> StepView<()> {
        self.functions.destroy_step(self, replies)
    }

    /// Releases the native program of this program. The handle is of no use afterwards: the program
    /// calls this once, when it drops the handle.
    pub fn destroy(&self, replies: &[Reply]) -> (step: Step<()>)
        ensures
            step@ == self.destroy_step(replies@),
    {
        self.functions.destroy(self, replies)
    }
}

impl ProgramFunctions {
    /// The step of `destroy`, as the backend of this table takes it.
    pub open spec fn destroy_step(self, this: Program, replies: Seq<Reply>) -> StepView<()> {
        match self.backend {
            Backend::Cl => cl::program::destroy_step(this, replies),
            Backend::Gl => gl::program::destroy_step(this, replies),
        }
    }

    /// The entry that releases the native program.
    pub fn destroy(&self, this: &Program, replies: &[Reply]) -> (step: Step<()>)
        ensures
            step@ == self.destroy_step(*this, replies@),
    {
        match self.backend {
            Backend::Cl => cl::program::destroy(this, replies),
            Backend::Gl => gl::program::destroy(this, replies),
        }
    }
}

/// Destroying a program releases what it holds exactly once. On the OpenCL
/// backend every run of the operation consists of three calls: the kernel is
/// asked for its program, then the kernel and that program are released. On
/// the OpenGL backend it consists of four calls: the program is asked for its
/// shader, no program is made current, then the program and that shader are
/// deleted. The operation ends well whatever the driver replies.
pub proof fn destroy_releases_once(program: Program, replies: Seq<Reply>)
    requires
        complete(|r: Seq<Reply>| program.destroy_step(r), replies),
    ensures
        program.functions.backend == Backend::Cl ==> replies.len() == 3 && call_at(
            |r: Seq<Reply>| program.destroy_step(r),
            replies,
            1,
        ) == Call::Cl(ClCall::ReleaseKernel { kernel: program.data }) && call_at(
            |r: Seq<Reply>| program.destroy_step(r),
            replies,
            2,
        ) == Call::Cl(ClCall::ReleaseProgram { program: replies[0].object }),
        program.functions.backend == Backend::Gl ==> replies.len() == 4 && call_at(
            |r: Seq<Reply>| program.destroy_step(r),
            replies,
            2,
        ) == Call::Gl(GlCall::DeleteProgram { program: program.data as u32 }) && call_at(
            |r: Seq<Reply>| program.destroy_step(r),
            replies,
            3,
        ) == Call::Gl(GlCall::DeleteShader { shader: replies[0].object as u32 }),
        program.destroy_step(replies) == done(()),
{
    let step = |r: Seq<Reply>| program.destroy_step(r);
    assert(step(replies) is Done);
    if replies.len() > 3 {
        assert(step(replies.take(3)) is Call);
        assert(replies.take(3)[0] == replies[0]);
    }
    if replies.len() > 4 {
        assert(step(replies.take(4)) is Call);
    }
    if replies.len() > 2 {
        assert(replies.take(2).len() == 2);
    }
}

} // verus!
