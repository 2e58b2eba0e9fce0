//! Data buffers on the GPU.

use vstd::prelude::*;
use crate::api::cl;
use crate::api::gl;
use crate::backend::Backend;
use crate::api::cl::call::ClCall;
use crate::api::gl::call::GlCall;
use crate::native::{call_at, complete, done, Call, Reply, Step, StepView};

verus! {

/// A data buffer on the GPU.
#[derive(Debug)]
pub struct Buffer {
    /// The native memory object.
    pub data: usize,
    /// The operations of the backend that created the buffer.
    pub functions: BufferFunctions,
}

/// The operations on a buffer, as one backend supplies them.
#[derive(Clone, Copy, Debug)]
pub struct BufferFunctions {
    pub backend: Backend,
}

/// Memory protection from the GPU side. (The CPU is always free to perform whatever reads and
/// writes it wants.)
///
/// Do not rely on the driver to enforce this.
#[derive(Clone, Copy, PartialEq, Eq, Structural, Debug)]
pub enum Protection {
    /// The GPU may only read from this buffer.
    ReadOnly,
    /// The GPU may only write to the buffer.
    ///
    /// Note that atomic writes count as reads too, so use `ReadWrite` instead if you're using
    /// them.
    WriteOnly,
    /// The GPU may read and write to the buffer.
    ReadWrite,
}

/// Where the initial data for a buffer comes from.
pub enum BufferData<'a> {
    /// The data is undefined data of the given size.
    Uninitialized(usize),
    /// The data is initialized with the given contents.
    HostAllocated(HostAllocatedData<'a>),
}

/// CPU-side data to initialize a buffer store with.
#[derive(Clone, Copy)]
pub struct HostAllocatedData<'a>(pub &'a [u8]);

impl Protection {
    /// The number that stands for the protection where a handle keeps it
    /// among its native data.
    pub open spec fn index(self) -> usize {
        match self {
            Protection::ReadOnly => 0,
            Protection::WriteOnly => 1,
            Protection::ReadWrite => 2,
        }
    }

    /// The protection that `index` stands for; every number that stands for
    /// no other protection stands for `ReadWrite`.
    pub open spec fn of_index(index: usize) -> Protection {
        if index == 0 {
            Protection::ReadOnly
        } else if index == 1 {
            Protection::WriteOnly
        } else {
            Protection::ReadWrite
        }
    }

    /// Returns the number that stands for this protection among the native
    /// data of a handle.
    pub fn to_index(self) -> (index: usize)
        ensures
            index == self.index(),
    {
        match self {
            Protection::ReadOnly => 0,
            Protection::WriteOnly => 1,
            Protection::ReadWrite => 2,
        }
    }

    /// Returns the protection that `index` stands for.
    pub fn from_index(index: usize) -> (protection: Protection)
        ensures
            protection == Protection::of_index(index),
    {
        if index == 0 {
            Protection::ReadOnly
        } else if index == 1 {
            Protection::WriteOnly
        } else {
            Protection::ReadWrite
        }
    }
}

impl Buffer {
    /// Makes the handle of the native memory object `data`, on which
    /// `functions` operate.
    pub fn from_raw_data(data: usize, functions: BufferFunctions) -> (buffer: Buffer)
        ensures
            buffer == (Buffer { data, functions }),
    {
        Buffer { data, functions }
    }

    /// Returns the native memory object.
    pub fn data(&self) -> (data: usize)
        ensures
            data == self.data,
    {
        self.data
    }

    /// The step of `destroy`: that of the entry of the handle's table.
    pub open spec fn destroy_step(self, replies: Seq<Reply>) -> StepView<()> {
        self.functions.destroy_step(self, replies)
    }

    /// Releases the native memory of this buffer. The handle is of no use afterwards: the program
    /// calls this once, when it drops the handle.
    pub fn destroy(&self, replies: &[Reply]) -> (step: Step<()>)
        ensures
            step@ == self.destroy_step(replies@),
    {
        self.functions.destroy(self, replies)
    }
}

impl<'a> HostAllocatedData<'a> {
    /// Constructs a `HostAllocatedData` from the given bytes.
    pub fn new(slice: &'a [u8]) -> (data: HostAllocatedData<'a>)
        ensures
            data.0@ == slice@,
    {
        HostAllocatedData(slice)
    }

    /// Returns the data.
    pub fn as_slice(&self) -> (slice: &'a [u8])
        ensures
            slice@ == self.0@,
    {
        self.0
    }

    /// Returns the size of the data.
    pub fn size(&self) -> (size: usize)
        ensures
            size == self.0@.len(),
    {
        self.0.len()
    }
}

impl<'a> BufferData<'a> {
    /// The size in bytes of the buffer that is made from this data.
    pub open spec fn size(self) -> usize {
        match self {
            BufferData::Uninitialized(size) => size,
            BufferData::HostAllocated(data) => data.0@.len() as usize,
        }
    }

    /// The bytes that the buffer starts with, where they are given.
    pub open spec fn contents(self) -> Option<Seq<u8>> {
        match self {
            BufferData::Uninitialized(_) => None,
            BufferData::HostAllocated(data) => Some(data.0@),
        }
    }
}

impl BufferFunctions {
    /// The step of `destroy`, as the backend of this table takes it.
    pub open spec fn destroy_step(self, this: Buffer, replies: Seq<Reply>) -> StepView<()> {
        match self.backend {
            Backend::Cl => cl::buffer::destroy_step(this, replies),
            Backend::Gl => gl::buffer::destroy_step(this, replies),
        }
    }

    /// The entry that releases the native memory.
    pub fn destroy(&self, this: &Buffer, replies: &[Reply]) -> (step: Step<()>)
        ensures
            step@ == self.destroy_step(*this, replies@),
    {
        match self.backend {
            Backend::Cl => cl::buffer::destroy(this, replies),
            Backend::Gl => gl::buffer::destroy(this, replies),
        }
    }
}

/// The native call that releases the memory of `buffer`.
pub open spec fn release_call(buffer: Buffer) -> Call {
    match buffer.functions.backend {
        Backend::Cl => Call::Cl(ClCall::ReleaseMemObject { memory: buffer.data }),
        Backend::Gl => Call::Gl(GlCall::DeleteBuffers { buffer: buffer.data as u32 }),
    }
}

/// Destroying a buffer releases its native memory exactly once: every run of
/// the operation consists of one call, which is that release, and ends well
/// whatever the driver replies.
pub proof fn destroy_releases_once(buffer: Buffer, replies: Seq<Reply>)
    requires
        complete(|r: Seq<Reply>| buffer.destroy_step(r), replies),
    ensures
        replies.len() == 1,
        call_at(|r: Seq<Reply>| buffer.destroy_step(r), replies, 0) == release_call(buffer),
        buffer.destroy_step(replies) == done(()),
{
    let step = |r: Seq<Reply>| buffer.destroy_step(r);
    assert(step(replies) is Done);
    if replies.len() > 1 {
        assert(step(replies.take(1)) is Call);
    }
}

} // verus!
