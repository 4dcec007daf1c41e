use vk_ml::back::vk::init::{
    instance_request, DeviceRequest, Failure, Progress, Reply, Step,
};
use vk_ml::back::vk::probe::{required_extensions, MemoryHeap, ProbedDevice, QueueFamily};
use vk_ml::back::vk::select::Selection;
use vk_ml::back::vk::VulkanLoadError;

const GIB: u64 = 1 << 30;
const GRAPHICS: u32 = 0b1;
const COMPUTE: u32 = 0b10;
const DEVICE_LOCAL: u32 = 0b1;
const COOPERATIVE_MATRIX: &str = "VK_KHR_cooperative_matrix";

fn raw(name: &str) -> Vec<i8> {
    let mut out: Vec<i8> = name.bytes().map(|b| b as i8).collect();
    out.resize(256, 0);
    out
}

fn device(families: &[u32], extensions: Option<&[&str]>, local_gib: u64) -> ProbedDevice {
    ProbedDevice {
        name: raw("test gpu"),
        queue_families: families.to_vec(),
        extensions: extensions.map(|list| list.iter().map(|name| raw(name)).collect()),
        heap_count: 1,
        heaps: vec![MemoryHeap { size: local_gib * GIB, flags: DEVICE_LOCAL }],
    }
}

fn fit(local_gib: u64) -> ProbedDevice {
    device(&[GRAPHICS, COMPUTE], Some(&[COOPERATIVE_MATRIX]), local_gib)
}

fn probing() -> Progress {
    let required = required_extensions();
    Progress::start().advance(Reply::Done, &required).advance(Reply::Done, &required)
}

fn all_replies() -> Vec<Reply> {
    vec![Reply::Done, Reply::Refused, Reply::Devices(vec![]), Reply::Devices(vec![fit(1)])]
}

#[test]
fn bringing_up_starts_by_loading_the_entry_points() {
    assert_eq!(Progress::start(), Progress::LoadingEntry);
    assert_eq!(Progress::start().next_step(), Step::LoadEntry);
}

#[test]
fn bringing_up_runs_through_every_step() {
    let required = required_extensions();
    let p = Progress::start();
    let p = p.advance(Reply::Done, &required);
    assert_eq!(p, Progress::CreatingInstance);
    assert_eq!(p.next_step(), Step::CreateInstance);
    let p = p.advance(Reply::Done, &required);
    assert_eq!(p, Progress::ProbingDevices);
    assert_eq!(p.next_step(), Step::ProbeDevices);
    let p = p.advance(Reply::Devices(vec![fit(4), fit(8)]), &required);
    assert_eq!(p, Progress::CreatingDevice(Selection { device: 1, queue_family: QueueFamily(1) }));
    assert_eq!(
        p.next_step(),
        Step::CreateDevice(DeviceRequest {
            device: 1,
            queue_family: QueueFamily(1),
            queue_count: 1,
            queue_index: 0,
        })
    );
    let p = p.advance(Reply::Done, &required);
    match p.next_step() {
        Step::Finish(Ok(backend)) => {
            assert_eq!(backend.gpu(), 1);
            assert_eq!(backend.queue_family(), QueueFamily(1));
            assert_eq!(p, Progress::Ready(backend));
        }
        other => panic!("unexpected step {:?}", other),
    }
}

#[test]
fn a_missing_driver_ends_in_failure() {
    let p = Progress::start().advance(Reply::Refused, &required_extensions());
    assert_eq!(p, Progress::Failed(Failure::EntryLoad));
    assert_eq!(p.next_step(), Step::Finish(Err(VulkanLoadError)));
}

#[test]
fn a_refused_instance_ends_in_failure() {
    let required = required_extensions();
    let p = Progress::start().advance(Reply::Done, &required).advance(Reply::Refused, &required);
    assert_eq!(p, Progress::Failed(Failure::InstanceCreation));
    assert_eq!(p.next_step(), Step::Finish(Err(VulkanLoadError)));
}

#[test]
fn a_failed_enumeration_ends_in_failure() {
    let p = probing().advance(Reply::Refused, &required_extensions());
    assert_eq!(p, Progress::Failed(Failure::DeviceEnumeration));
    assert_eq!(p.next_step(), Step::Finish(Err(VulkanLoadError)));
}

#[test]
fn no_devices_end_in_failure_without_device_creation() {
    let p = probing().advance(Reply::Devices(vec![]), &required_extensions());
    assert_eq!(p, Progress::Failed(Failure::NoSuitableDevice));
    assert_eq!(p.next_step(), Step::Finish(Err(VulkanLoadError)));
}

#[test]
fn devices_without_compute_end_in_failure_without_device_creation() {
    let devices = vec![
        device(&[GRAPHICS], Some(&[COOPERATIVE_MATRIX]), 8),
        device(&[], Some(&[COOPERATIVE_MATRIX]), 8),
    ];
    let p = probing().advance(Reply::Devices(devices), &required_extensions());
    assert_eq!(p, Progress::Failed(Failure::NoSuitableDevice));
    assert_eq!(p.next_step(), Step::Finish(Err(VulkanLoadError)));
}

#[test]
fn devices_that_fail_later_filters_end_in_failure() {
    let devices = vec![device(&[COMPUTE], None, 8), device(&[COMPUTE], Some(&["VK_KHR_swapchain"]), 8)];
    let p = probing().advance(Reply::Devices(devices), &required_extensions());
    assert_eq!(p, Progress::Failed(Failure::NoSuitableDevice));
}

#[test]
fn a_refused_device_ends_in_failure_and_no_other_is_tried() {
    let required = required_extensions();
    let p = probing()
        .advance(Reply::Devices(vec![fit(8), fit(4)]), &required)
        .advance(Reply::Refused, &required);
    assert_eq!(p, Progress::Failed(Failure::DeviceCreation));
    assert_eq!(p.next_step(), Step::Finish(Err(VulkanLoadError)));
    assert_eq!(p.advance(Reply::Devices(vec![fit(4)]), &required), p);
}

#[test]
fn the_outcome_is_final() {
    let required = required_extensions();
    let ready = probing().advance(Reply::Devices(vec![fit(8)]), &required).advance(Reply::Done, &required);
    assert!(matches!(ready, Progress::Ready(_)));
    let failed = [
        Progress::Failed(Failure::EntryLoad),
        Progress::Failed(Failure::InstanceCreation),
        Progress::Failed(Failure::DeviceEnumeration),
        Progress::Failed(Failure::NoSuitableDevice),
        Progress::Failed(Failure::DeviceCreation),
    ];
    for reply in all_replies() {
        assert_eq!(ready.advance(reply.clone(), &required), ready);
        for f in failed {
            assert_eq!(f.advance(reply.clone(), &required), f);
        }
    }
}

#[test]
fn an_answer_to_no_pending_call_changes_nothing() {
    let required = required_extensions();
    let loading = Progress::LoadingEntry;
    assert_eq!(loading.advance(Reply::Devices(vec![fit(1)]), &required), loading);
    let creating = Progress::CreatingInstance;
    assert_eq!(creating.advance(Reply::Devices(vec![fit(1)]), &required), creating);
    let probing = Progress::ProbingDevices;
    assert_eq!(probing.advance(Reply::Done, &required), probing);
    let device = Progress::CreatingDevice(Selection { device: 0, queue_family: QueueFamily(0) });
    assert_eq!(device.advance(Reply::Devices(vec![fit(1)]), &required), device);
}

#[test]
fn the_required_names_are_those_handed_in() {
    let plain = device(&[COMPUTE], Some(&["VK_KHR_swapchain"]), 8);
    let p = Progress::ProbingDevices.advance(Reply::Devices(vec![plain.clone()]), &[]);
    assert_eq!(p, Progress::CreatingDevice(Selection { device: 0, queue_family: QueueFamily(0) }));
    let p = Progress::ProbingDevices.advance(Reply::Devices(vec![plain]), &required_extensions());
    assert_eq!(p, Progress::Failed(Failure::NoSuitableDevice));
}

#[test]
fn the_instance_is_requested_under_the_crates_name_and_version() {
    let request = instance_request();
    assert_eq!(request.application_name, "github.com/xor-bits/vk-ml");
    assert_eq!(request.engine_name, "github.com/xor-bits/vk-ml");
    // variant 0, major 1, minor 3, patch 0
    assert_eq!(request.api_version, (1 << 22) | (3 << 12));
    assert_eq!(request.api_version, 4_206_592);
    // variant 1, major 0, minor 1, patch 0
    assert_eq!(request.application_version, (1 << 29) | (1 << 12));
    assert_eq!(request.application_version, 536_875_008);
    assert_eq!(request.engine_version, 536_875_008);
    assert!(request.layers.is_empty());
    assert!(request.extensions.is_empty());
}
