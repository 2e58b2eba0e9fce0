//! Instances of the OpenCL backend.

use vstd::prelude::*;
use crate::api::cl::call::{ClCall, CL_DEVICE_NAME, CL_DEVICE_TYPE_GPU, CL_SUCCESS};
use crate::api::cl::matching::{
    best_among, lcs, name_views, select_device, selection_is_first_greatest, strip_terminator,
    without_terminator,
};
use crate::api::gl::call::{GlCall, RENDERER};
use crate::backend::Backend;
use crate::device::{Device, DeviceFunctions};
use crate::error::Error;
use crate::instance::{Instance, InstanceFunctions, ShadingLanguage};
use crate::native::{ask, done, failed, Call, Reply, Step, StepView};

verus! {

/// The instance of this backend: it has no native context of its own.
pub open spec fn created() -> Instance {
    Instance { data: 0, functions: InstanceFunctions { backend: Backend::Cl } }
}

/// Whether the driver failed to report the name of a device: one of the
/// replies to the `2 * devices` calls that ask for names reports a failure.
pub open spec fn name_failed(replies: Seq<Reply>, devices: int) -> bool {
    exists|k: int|
        3 <= k < 3 + 2 * devices && k < replies.len() && (#[trigger] replies[k]).integer
            != CL_SUCCESS
}

/// The names of the first `devices` devices, as the replies report them,
/// each without its terminator.
pub open spec fn device_names(replies: Seq<Reply>, devices: int) -> Seq<Seq<u8>> {
    Seq::new(devices as nat, |i: int| without_terminator(replies[4 + 2 * i].bytes@))
}

/// Nothing is to release.
pub open spec fn destroy_step(this: Instance, replies: Seq<Reply>) -> StepView<()> {
    done(())
}

/// Opens the GPU that renders. The devices of type GPU are counted and
/// listed, the renderer's name is read from the graphics context, and each
/// device is asked for the size of its name and then for its name. A context
/// is then created on the device whose name has the longest substring in
/// common with the renderer's name, the first of them where several have.
/// The operation fails where the driver reports no device or a failure, and
/// where it creates no context.
pub open spec fn open_device_step(this: Instance, replies: Seq<Reply>) -> StepView<Device> {
    if replies.len() == 0 {
        ask(Call::Cl(ClCall::GetDeviceCount { device_type: CL_DEVICE_TYPE_GPU }))
    } else if replies[0].integer != CL_SUCCESS || replies[0].size == 0 || replies[0].size
        > u32::MAX {
        failed()
    } else if replies.len() == 1 {
        ask(
            Call::Cl(
                ClCall::GetDeviceIds { device_type: CL_DEVICE_TYPE_GPU, count: replies[0].size as u32 },
            ),
        )
    } else if replies[1].integer != CL_SUCCESS || replies[1].objects@.len() == 0 {
        failed()
    } else if replies.len() == 2 {
        ask(Call::Gl(GlCall::GetString { name: RENDERER }))
    } else {
        let devices = replies[1].objects@;
        let count = devices.len() as int;
        let answered = replies.len() - 3;
        if name_failed(replies, count) {
            failed()
        } else if answered < 2 * count {
            if answered % 2 == 0 {
                ask(
                    Call::Cl(
                        ClCall::GetDeviceInfoSize {
                            device: devices[answered / 2],
                            parameter: CL_DEVICE_NAME,
                        },
                    ),
                )
            } else {
                ask(
                    Call::Cl(
                        ClCall::GetDeviceInfo {
                            device: devices[answered / 2],
                            parameter: CL_DEVICE_NAME,
                            size: replies[replies.len() - 1].size,
                        },
                    ),
                )
            }
        } else if answered == 2 * count {
            ask(
                Call::Cl(
                    ClCall::CreateContext {
                        device: devices[best_among(
                            replies[2].bytes@,
                            device_names(replies, count),
                            count,
                        )],
                    },
                ),
            )
        } else if replies[3 + 2 * count].object != 0 {
            done(
                Device {
                    data: replies[3 + 2 * count].object,
                    functions: DeviceFunctions { backend: Backend::Cl },
                },
            )
        } else {
            failed()
        }
    }
}

/// Initializes this backend.
pub fn create() -> (instance: Result<Instance, Error>)
    ensures
        instance matches Ok(made) && made == created(),
{
    Ok(Instance { data: 0, functions: InstanceFunctions { backend: Backend::Cl } })
}

/// Nothing is to release.
pub fn destroy(this: &Instance, replies: &[Reply]) -> (step: Step<()>)
    ensures
        step@ == destroy_step(*this, replies@),
{
    Step::done(())
}

/// Returns the shading language of this backend.
pub fn shading_language(this: &Instance) -> (language: ShadingLanguage)
    ensures
        language == ShadingLanguage::Cl,
{
    ShadingLanguage::Cl
}

/// Returns whether the driver failed to report the name of one of `devices`
/// devices.
pub fn any_name_failed(replies: &[Reply], devices: usize) -> (failure: bool)
    ensures
        failure == name_failed(replies@, devices as int),
{
    let mut k: usize = 3;
    while k < replies.len() && (k - 3) / 2 < devices
        invariant
            3 <= k,
            forall|t: int|
                3 <= t < k && t < 3 + 2 * devices && t < replies@.len() ==> (#[trigger] replies@[t]).integer
                    == CL_SUCCESS,
        decreases replies@.len() - k,
    {
        if replies[k].integer != CL_SUCCESS {
            return true;
        }
        k += 1;
    }
    false
}

/// Returns the names of the first `devices` devices, as the replies report
/// them, each without its terminator.
pub(crate) fn collect_names(replies: &[Reply], devices: usize) -> (names: Vec<Vec<u8>>)
    requires
        replies@.len() >= 3 + 2 * devices,
    ensures
        names@.len() == devices,
        name_views(names@) == device_names(replies@, devices as int),
{
    let mut names: Vec<Vec<u8>> = Vec::new();
    let total = replies.len();
    let mut i: usize = 0;
    while i < devices
        invariant
            i <= devices,
            total == replies@.len(),
            total >= 3 + 2 * devices,
            names@.len() == i,
            forall|k: int| 0 <= k < i ==> names@[k]@ == without_terminator(replies@[4 + 2 * k].bytes@),
        decreases devices - i,
    {
        let name = strip_terminator(replies[4 + 2 * i].bytes.as_slice());
        names.push(vstd::slice::slice_to_vec(name));
        i += 1;
    }
    assert(name_views(names@) =~= device_names(replies@, devices as int));
    names
}

/// Opens a handle to the GPU.
pub fn open_device(this: &Instance, replies: &[Reply]) -> (step: Step<Device>)
    ensures
        step@ == open_device_step(*this, replies@),
{
    if replies.len() == 0 {
        return Step::ask(Call::Cl(ClCall::GetDeviceCount { device_type: CL_DEVICE_TYPE_GPU }));
    }
    if replies[0].integer != CL_SUCCESS || replies[0].size == 0 || replies[0].size
        > u32::MAX as usize {
        return Step::failed();
    }
    if replies.len() == 1 {
        return Step::ask(
            Call::Cl(
                ClCall::GetDeviceIds { device_type: CL_DEVICE_TYPE_GPU, count: replies[0].size as u32 },
            ),
        );
    }
    if replies[1].integer != CL_SUCCESS || replies[1].objects.len() == 0 {
        return Step::failed();
    }
    if replies.len() == 2 {
        return Step::ask(Call::Gl(GlCall::GetString { name: RENDERER }));
    }
    let devices = &replies[1].objects;
    let answered = replies.len() - 3;
    if any_name_failed(replies, devices.len()) {
        Step::failed()
    } else if answered / 2 < devices.len() {
        let device = devices[answered / 2];
        if answered % 2 == 0 {
            Step::ask(Call::Cl(ClCall::GetDeviceInfoSize { device, parameter: CL_DEVICE_NAME }))
        } else {
            Step::ask(
                Call::Cl(
                    ClCall::GetDeviceInfo {
                        device,
                        parameter: CL_DEVICE_NAME,
                        size: replies[replies.len() - 1].size,
                    },
                ),
            )
        }
    } else if answered / 2 == devices.len() && answered % 2 == 0 {
        let names = collect_names(replies, devices.len());
        proof {
            selection_is_first_greatest(
                replies@[2].bytes@,
                device_names(replies@, devices@.len() as int),
                devices@.len() as int,
            );
        }
        match select_device(names.as_slice(), replies[2].bytes.as_slice()) {
            Some(best) => Step::ask(Call::Cl(ClCall::CreateContext { device: devices[best] })),
            None => Step::failed(),
        }
    } else {
        let context = replies[3 + 2 * devices.len()].object;
        if context != 0 {
            Step::done(Device { data: context, functions: DeviceFunctions { backend: Backend::Cl } })
        } else {
            Step::failed()
        }
    }
}

/// The context is created on the best match: once every device has
/// reported its name, the operation asks for a context on the device whose
/// name has the longest substring in common with the renderer's name, and
/// on the first such device where several have.
pub proof fn context_is_created_on_best_match(this: Instance, replies: Seq<Reply>)
    requires
        replies.len() >= 3,
        replies.len() - 3 == 2 * replies[1].objects@.len(),
        open_device_step(this, replies) is Call,
    ensures
        ({
            let devices = replies[1].objects@;
            let renderer = replies[2].bytes@;
            let names = device_names(replies, devices.len() as int);
            let best = best_among(renderer, names, devices.len() as int);
            &&& 0 <= best < devices.len()
            &&& open_device_step(this, replies) == ask::<Device>(
                Call::Cl(ClCall::CreateContext { device: devices[best] }),
            )
            &&& forall|j: int|
                0 <= j < devices.len() ==> lcs(renderer, #[trigger] names[j]) <= lcs(
                    renderer,
                    names[best],
                )
            &&& forall|j: int| 0 <= j < best ==> lcs(renderer, #[trigger] names[j]) < lcs(renderer, names[best])
        }),
{
    let devices = replies[1].objects@;
    selection_is_first_greatest(
        replies[2].bytes@,
        device_names(replies, devices.len() as int),
        devices.len() as int,
    );
}

} // verus!
