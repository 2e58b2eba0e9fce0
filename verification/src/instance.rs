//! Instances of the library.

use vstd::prelude::*;
use crate::api::cl;
use crate::api::gl;
use crate::backend::Backend;
use crate::device::Device;
use crate::error::Error;
use crate::native::{complete, done, Reply, Step, StepView};

verus! {

/// An instance of the library.
///
/// This wraps the underlying platform-specific API (currently OpenCL 1.2+ or OpenGL 4.3+).
#[derive(Debug)]
pub struct Instance {
    /// The native context of the backend.
    pub data: usize,
    /// The operations of the backend that the instance selected.
    pub functions: InstanceFunctions,
}

/// The operations on an instance, as one backend supplies them.
#[derive(Clone, Copy, Debug)]
pub struct InstanceFunctions {
    pub backend: Backend,
}

/// The shading language supported by this instance.
#[derive(Clone, Copy, PartialEq, Eq, Structural, Debug)]
pub enum ShadingLanguage {
    /// OpenCL 1.2+.
    Cl,
    /// OpenGL Shading Language 4.3+.
    Glsl,
}

impl InstanceFunctions {
    /// The shading language of the backend of this table.
    pub open spec fn language(self) -> ShadingLanguage {
        match self.backend {
            Backend::Cl => ShadingLanguage::Cl,
            Backend::Gl => ShadingLanguage::Glsl,
        }
    }

    /// The entry that names the shading language.
    pub fn shading_language(&self, this: &Instance) -> (language: ShadingLanguage)
        ensures
            language == self.language(),
    {
        match self.backend {
            Backend::Cl => cl::instance::shading_language(this),
            Backend::Gl => gl::instance::shading_language(this),
        }
    }

    /// The step of `destroy`, as the backend of this table takes it.
    pub open spec fn destroy_step(self, this: Instance, replies: Seq<Reply>) -> StepView<()> {
        match self.backend {
            Backend::Cl => cl::instance::destroy_step(this, replies),
            Backend::Gl => gl::instance::destroy_step(this, replies),
        }
    }

    /// The entry that releases the native context.
    pub fn destroy(&self, this: &Instance, replies: &[Reply]) -> (step: Step<()>)
        ensures
            step@ == self.destroy_step(*this, replies@),
    {
        match self.backend {
            Backend::Cl => cl::instance::destroy(this, replies),
            Backend::Gl => gl::instance::destroy(this, replies),
        }
    }

    /// The step of `open_device`, as the backend of this table takes it.
    pub open spec fn open_device_step(self, this: Instance, replies: Seq<Reply>) -> StepView<Device> {
        match self.backend {
            Backend::Cl => cl::instance::open_device_step(this, replies),
            Backend::Gl => gl::instance::open_device_step(this, replies),
        }
    }

    /// The entry that opens the device.
    pub fn open_device(&self, this: &Instance, replies: &[Reply]) -> (step: Step<Device>)
        ensures
            step@ == self.open_device_step(*this, replies@),
    {
        match self.backend {
            Backend::Cl => cl::instance::open_device(this, replies),
            Backend::Gl => gl::instance::open_device(this, replies),
        }
    }
}

impl Instance {
    /// Makes the handle of the native context `data`, on which `functions`
    /// operate.
    pub fn from_raw_data(data: usize, functions: InstanceFunctions) -> (instance: Instance)
        ensures
            instance == (Instance { data, functions }),
    {
        Instance { data, functions }
    }

    /// Returns the native context.
    pub fn data(&self) -> (data: usize)
        ensures
            data == self.data,
    {
        self.data
    }

    /// The shading language of the backend that the instance selected.
    pub open spec fn language(self) -> ShadingLanguage {
        self.functions.language()
    }

    /// Returns the shading language accepted by `Device::create_program()`.
    pub fn shading_language(&self) -> (language: ShadingLanguage)
        ensures
            language == self.language(),
    {
        self.functions.shading_language(self)
    }

    /// Initializes the library on the backend that the platform offers and
    /// returns a new instance.
    pub fn new(backend: Backend) -> (instance: Result<Instance, Error>)
        ensures
            instance matches Ok(made) && made == (Instance {
                data: 0,
                functions: InstanceFunctions { backend },
            }),
    {
        match backend {
            Backend::Cl => cl::instance::create(),
            Backend::Gl => gl::instance::create(),
        }
    }

    /// The step of `destroy`: that of the entry of the handle's table.
    pub open spec fn destroy_step(self, replies: Seq<Reply>) -> StepView<()> {
        self.functions.destroy_step(self, replies)
    }

    /// Releases the native context of this instance. The handle is of no use afterwards: the program
    /// calls this once, when it drops the handle.
    pub fn destroy(&self, replies: &[Reply]) -> (step: Step<()>)
        ensures
            step@ == self.destroy_step(replies@),
    {
        self.functions.destroy(self, replies)
    }

    /// The step of `open_device`: that of the entry of the handle's table.
    pub open spec fn open_device_step(self, replies: Seq<Reply>) -> StepView<Device> {
        self.functions.open_device_step(self, replies)
    }

    /// Opens a handle to the GPU.
    pub fn open_device(&self, replies: &[Reply]) -> (step: Step<Device>)
        ensures
            step@ == self.open_device_step(replies@),
    {
        self.functions.open_device(self, replies)
    }
}

/// Destroying an instance releases nothing: an instance has no native
/// context of its own on either backend, and a run of the operation consists
/// of no call.
pub proof fn destroy_releases_nothing(instance: Instance, replies: Seq<Reply>)
    requires
        complete(|r: Seq<Reply>| instance.destroy_step(r), replies),
    ensures
        replies.len() == 0,
        instance.destroy_step(replies) == done(()),
{
    let step = |r: Seq<Reply>| instance.destroy_step(r);
    if replies.len() > 0 {
        assert(step(replies.take(0)) is Call);
    }
}

/// The device that an instance opens belongs to the backend of the
/// instance, and the shading language that the instance reports is that of
/// the same backend.
pub proof fn open_device_keeps_backend(instance: Instance, replies: Seq<Reply>)
    ensures
        instance.open_device_step(replies) matches StepView::Done(Ok(device))
            ==> device.functions.backend == instance.functions.backend,
        instance.language() == ShadingLanguage::Cl <==> instance.functions.backend == Backend::Cl,
        instance.language() == ShadingLanguage::Glsl <==> instance.functions.backend == Backend::Gl,
{
}

/// Opening a device ends: it is finished once the driver has replied four
/// times and twice for each device that it listed, whatever it replied.
pub proof fn open_device_finishes(instance: Instance, replies: Seq<Reply>)
    requires
        replies.len() >= 2,
        replies.len() >= 2 * replies[1].objects@.len() + 4,
    ensures
        instance.open_device_step(replies) is Done,
{
}

} // verus!
