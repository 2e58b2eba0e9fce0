//! Instances of the OpenGL backend.

use vstd::prelude::*;
use crate::backend::Backend;
use crate::device::{Device, DeviceFunctions};
use crate::error::Error;
use crate::instance::{Instance, InstanceFunctions, ShadingLanguage};
use crate::native::{done, Reply, Step, StepView};

verus! {

/// The instance of this backend: it has no native context of its own.
pub open spec fn created() -> Instance {
    Instance { data: 0, functions: InstanceFunctions { backend: Backend::Gl } }
}

/// Nothing is to release.
pub open spec fn destroy_step(this: Instance, replies: Seq<Reply>) -> StepView<()> {
    done(())
}

/// The device is the graphics context that is current, which needs no call
/// and cannot fail.
pub open spec fn open_device_step(this: Instance, replies: Seq<Reply>) -> StepView<Device> {
    done(Device { data: 0, functions: DeviceFunctions { backend: Backend::Gl } })
}

/// Initializes this backend.
pub fn create() -> (instance: Result<Instance, Error>)
    ensures
        instance matches Ok(made) && made == created(),
{
    Ok(Instance { data: 0, functions: InstanceFunctions { backend: Backend::Gl } })
}

/// Nothing is to release.
pub fn destroy(this: &Instance, replies: &[Reply]) -> (step: Step<()>)
    ensures
        step@ == destroy_step(*this, replies@),
{
    Step::done(())
}

/// Returns the shading language of this backend.
pub fn shading_language(this: &Instance) -> (language: ShadingLanguage)
    ensures
        language == ShadingLanguage::Glsl,
{
    ShadingLanguage::Glsl
}

/// Opens a handle to the GPU.
pub fn open_device(this: &Instance, replies: &[Reply]) -> (step: Step<Device>)
    ensures
        step@ == open_device_step(*this, replies@),
{
    Step::done(Device { data: 0, functions: DeviceFunctions { backend: Backend::Gl } })
}

} // verus!
