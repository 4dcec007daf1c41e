//! Bringing the backend up, one driver call at a time.
//!
//! The driver calls themselves are made by the caller. This module says which call comes
//! next, what is asked for in it, and where each answer leads.

use vstd::prelude::*;

use super::outside::api_version_1_3;
use super::probe::{texts, ProbedDevice, QueueFamily};
use super::select::{
    best_gpu, chosen, is_best, lemma_choice_exists, lemma_nothing_to_choose, models, Selection,
};
use super::{Backend, VulkanLoadError};

verus! {

/// The step at which bringing the backend up failed.
#[derive(Clone, Copy, Debug, PartialEq, Eq, Structural)]
pub enum Failure {
    /// The driver's entry points could not be loaded.
    EntryLoad,
    /// The driver refused to create an API instance.
    InstanceCreation,
    /// The driver failed to enumerate its physical devices.
    DeviceEnumeration,
    /// No device was enumerated, or none passed the filters.
    NoSuitableDevice,
    /// The driver refused to create the logical device.
    DeviceCreation,
}

/// How far bringing the backend up has come.
#[derive(Clone, Copy, Debug, PartialEq, Eq)]
pub enum Progress {
    /// Waiting for the driver's entry points to be loaded.
    LoadingEntry,
    /// Waiting for the API instance to be created.
    CreatingInstance,
    /// Waiting for the physical devices to be enumerated and probed.
    ProbingDevices,
    /// Waiting for the logical device of the chosen GPU to be created.
    CreatingDevice(Selection),
    /// The backend is up.
    Ready(Backend),
    /// The backend is unavailable.
    Failed(Failure),
}

/// What the driver answered to the pending call.
#[derive(Clone, Debug, PartialEq, Eq)]
pub enum Reply {
    /// The call succeeded.
    Done,
    /// The call failed.
    Refused,
    /// The physical devices, in enumeration order, with what each reported.
    Devices(Vec<ProbedDevice>),
}

/// The names and versions an API instance is created with, and the layers and instance
/// extensions to enable in it.
#[derive(Clone, Debug, PartialEq, Eq)]
pub struct InstanceRequest {
    pub application_name: String,
    pub engine_name: String,
    pub api_version: u32,
    pub application_version: u32,
    pub engine_version: u32,
    pub layers: Vec<String>,
    pub extensions: Vec<String>,
}

/// The one queue a logical device is created with, which is also the queue to retrieve
/// from it afterwards.
#[derive(Clone, Copy, Debug, PartialEq, Eq, Structural)]
pub struct DeviceRequest {
    /// The position of the GPU in enumeration order.
    pub device: usize,
    pub queue_family: QueueFamily,
    pub queue_count: u32,
    pub queue_index: u32,
}

/// What to do next.
#[derive(Clone, Copy, Debug, PartialEq, Eq)]
pub enum Step {
    /// Load the driver's entry points.
    LoadEntry,
    /// Create an API instance as [`instance_request`] describes it.
    CreateInstance,
    /// Enumerate the physical devices and probe each, asking of a device what
    /// [`Probe::next_query`](super::query::Probe::next_query) names and nothing else.
    ProbeDevices,
    /// Create the logical device and retrieve its queue.
    CreateDevice(DeviceRequest),
    /// Nothing: this is the outcome.
    Finish(Result<Backend, VulkanLoadError>),
}

/// A version number in the driver's packed form.
pub open spec fn api_version(variant: u32, major: u32, minor: u32, patch: u32) -> u32 {
    (variant << 29) | (major << 22) | (minor << 12) | patch
}

/// Describes the API instance to create: this crate as both application and engine, at
/// its own version, asking for API version 1.3, with no layer and no instance extension.
pub fn instance_request() -> (request: InstanceRequest)
    ensures
        request.application_name@ == "github.com/xor-bits/vk-ml"@,
        request.engine_name@ == "github.com/xor-bits/vk-ml"@,
        request.api_version == api_version(0, 1, 3, 0),
        request.application_version == api_version(1, 0, 1, 0),
        request.engine_version == api_version(1, 0, 1, 0),
        request.layers@ == Seq::<String>::empty(),
        request.extensions@ == Seq::<String>::empty(),
{
    let version: u32 = ash::vk::make_api_version(1, 0, 1, 0);
    InstanceRequest {
        application_name: "github.com/xor-bits/vk-ml".to_owned(),
        engine_name: "github.com/xor-bits/vk-ml".to_owned(),
        api_version: api_version_1_3(),
        application_version: version,
        engine_version: version,
        layers: Vec::new(),
        extensions: Vec::new(),
    }
}

impl Progress {
    /// Nothing further will happen.
    pub open spec fn is_final(self) -> bool {
        self is Ready || self is Failed
    }

    /// The call to make at this point.
    pub open spec fn step(self) -> Step {
        match self {
            Progress::LoadingEntry => Step::LoadEntry,
            Progress::CreatingInstance => Step::CreateInstance,
            Progress::ProbingDevices => Step::ProbeDevices,
            Progress::CreatingDevice(selection) => Step::CreateDevice(
                DeviceRequest {
                    device: selection.device,
                    queue_family: selection.queue_family,
                    queue_count: 1,
                    queue_index: 0,
                },
            ),
            Progress::Ready(backend) => Step::Finish(Ok(backend)),
            Progress::Failed(_) => Step::Finish(Err(VulkanLoadError)),
        }
    }

    /// Where `reply` leads from here. An answer that belongs to no pending call changes
    /// nothing.
    pub open spec fn after(self, reply: Reply, required: Seq<Seq<char>>) -> Progress {
        match self {
            Progress::LoadingEntry => match reply {
                Reply::Done => Progress::CreatingInstance,
                Reply::Refused => Progress::Failed(Failure::EntryLoad),
                Reply::Devices(_) => self,
            },
            Progress::CreatingInstance => match reply {
                Reply::Done => Progress::ProbingDevices,
                Reply::Refused => Progress::Failed(Failure::InstanceCreation),
                Reply::Devices(_) => self,
            },
            Progress::ProbingDevices => match reply {
                Reply::Done => self,
                Reply::Refused => Progress::Failed(Failure::DeviceEnumeration),
                Reply::Devices(devices) => match chosen(models(devices@), required) {
                    Some(selection) => Progress::CreatingDevice(selection),
                    None => Progress::Failed(Failure::NoSuitableDevice),
                },
            },
            Progress::CreatingDevice(selection) => match reply {
                Reply::Done => Progress::Ready(Backend::on(selection)),
                Reply::Refused => Progress::Failed(Failure::DeviceCreation),
                Reply::Devices(_) => self,
            },
            Progress::Ready(_) => self,
            Progress::Failed(_) => self,
        }
    }

    /// Nothing has been done yet.
    pub fn start() -> (progress: Progress)
        ensures
            progress == Progress::LoadingEntry,
    {
        Progress::LoadingEntry
    }

    /// The call to make at this point.
    pub fn next_step(&self) -> (step: Step)
        ensures
            step == self.step(),
    {
        match self {
            Progress::LoadingEntry => Step::LoadEntry,
            Progress::CreatingInstance => Step::CreateInstance,
            Progress::ProbingDevices => Step::ProbeDevices,
            Progress::CreatingDevice(selection) => Step::CreateDevice(
                DeviceRequest {
                    device: selection.device,
                    queue_family: selection.queue_family,
                    queue_count: 1,
                    queue_index: 0,
                },
            ),
            Progress::Ready(backend) => Step::Finish(Ok(*backend)),
            Progress::Failed(_) => Step::Finish(Err(VulkanLoadError)),
        }
    }

    /// Takes the driver's answer to the pending call into account.
    ///
    /// `required` names the extensions a device must support to be chosen.
    pub fn advance(self, reply: Reply, required: &[String]) -> (next: Progress)
        ensures
            next == self.after(reply, texts(required@)),
    {
        match self {
            Progress::LoadingEntry => match reply {
                Reply::Done => Progress::CreatingInstance,
                Reply::Refused => Progress::Failed(Failure::EntryLoad),
                Reply::Devices(_) => self,
            },
            Progress::CreatingInstance => match reply {
                Reply::Done => Progress::ProbingDevices,
                Reply::Refused => Progress::Failed(Failure::InstanceCreation),
                Reply::Devices(_) => self,
            },
            Progress::ProbingDevices => match reply {
                Reply::Done => self,
                Reply::Refused => Progress::Failed(Failure::DeviceEnumeration),
                Reply::Devices(devices) => {
                    if devices.len() == 0 {
                        proof {
                            lemma_choice_exists(models(devices@), texts(required@));
                            lemma_nothing_to_choose(
                                models(devices@),
                                texts(required@),
                                chosen(models(devices@), texts(required@)),
                            );
                        }
                        return Progress::Failed(Failure::NoSuitableDevice);
                    }
                    match best_gpu(devices.as_slice(), required) {
                        Some(selection) => Progress::CreatingDevice(selection),
                        None => Progress::Failed(Failure::NoSuitableDevice),
                    }
                },
            },
            Progress::CreatingDevice(selection) => match reply {
                Reply::Done => Progress::Ready(Backend::new(selection)),
                Reply::Refused => Progress::Failed(Failure::DeviceCreation),
                Reply::Devices(_) => self,
            },
            Progress::Ready(_) => self,
            Progress::Failed(_) => self,
        }
    }
}

/// When every driver call succeeds and some device is eligible, bringing the backend up
/// ends with a backend on the chosen device: four answers lead from the start to the end.
pub proof fn lemma_successful_run(devices: Vec<ProbedDevice>, required: Seq<Seq<char>>)
    requires
        exists|i: int|
            0 <= i < devices@.len() && (#[trigger] models(devices@)[i]).eligible(required),
    ensures
        chosen(models(devices@), required) matches Some(selection) && is_best(
            models(devices@),
            required,
            selection.device as int,
        ) && Progress::LoadingEntry.after(Reply::Done, required).after(
            Reply::Done,
            required,
        ).after(Reply::Devices(devices), required).after(Reply::Done, required)
            == Progress::Ready(Backend::on(selection)),
{
    assert(devices.len() == devices@.len());
    lemma_choice_exists(models(devices@), required);
}

/// The outcome is recorded once: when the backend is up or has failed, no answer changes
/// that, and the next step is to hand out the same outcome again.
pub proof fn lemma_outcome_is_final(progress: Progress, reply: Reply, required: Seq<Seq<char>>)
    requires
        progress.is_final(),
    ensures
        progress.after(reply, required) == progress,
        progress.after(reply, required).step() == progress.step(),
        progress.step() is Finish,
{
}

/// A logical device is asked for only after a selection, for the device selected, with one
/// queue of the selected family. In particular no other device is tried when creating the
/// logical device fails.
pub proof fn lemma_device_creation_follows_selection(
    progress: Progress,
    reply: Reply,
    required: Seq<Seq<char>>,
    request: DeviceRequest,
)
    requires
        progress.after(reply, required).step() == Step::CreateDevice(request),
        progress.step() != Step::CreateDevice(request),
    ensures
        progress == Progress::ProbingDevices,
        reply matches Reply::Devices(devices) && is_best(
            models(devices@),
            required,
            request.device as int,
        ),
        request.queue_count == 1,
        request.queue_index == 0,
        progress.after(reply, required).after(Reply::Refused, required) == Progress::Failed(
            Failure::DeviceCreation,
        ),
{
    match reply {
        Reply::Devices(devices) => {
            assert(devices.len() == devices@.len());
            lemma_choice_exists(models(devices@), required);
        },
        _ => {},
    }
}

/// Probing that turns up no device, or only devices without a compute-capable queue
/// family, ends in failure for want of a suitable device, and no logical device is asked
/// for.
pub proof fn lemma_unfit_devices_fail(devices: Vec<ProbedDevice>, required: Seq<Seq<char>>)
    requires
        devices@.len() == 0 || forall|i: int|
            0 <= i < devices@.len() ==> !(#[trigger] devices@[i])@.passes_compute(),
    ensures
        Progress::ProbingDevices.after(Reply::Devices(devices), required) == Progress::Failed(
            Failure::NoSuitableDevice,
        ),
        Progress::Failed(Failure::NoSuitableDevice).step() == Step::Finish(Err(VulkanLoadError)),
{
    assert(devices.len() == devices@.len());
    lemma_choice_exists(models(devices@), required);
    lemma_nothing_to_choose(models(devices@), required, chosen(models(devices@), required));
}

} // verus!
