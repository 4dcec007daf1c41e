use std::cell::Cell;

use vk_ml::back::vk::init::{Progress, Reply};
use vk_ml::back::vk::probe::{required_extensions, MemoryHeap, ProbedDevice, QueueFamily};
use vk_ml::back::vk::VulkanLoadError;
use vk_ml::back::{backend, Backend, BackendCell, Handle};

fn raw(name: &str) -> Vec<i8> {
    let mut out: Vec<i8> = name.bytes().map(|b| b as i8).collect();
    out.push(0);
    out
}

/// A backend on the device at `gpu` of `gpu + 1` enumerated devices.
fn brought_up(gpu: usize) -> vk_ml::back::vk::Backend {
    let devices: Vec<ProbedDevice> = (0..=gpu)
        .map(|i| ProbedDevice {
            name: raw("test gpu"),
            queue_families: vec![0b1, 0b10],
            extensions: Some(vec![raw("VK_KHR_cooperative_matrix")]),
            heap_count: 1,
            heaps: vec![MemoryHeap { size: 1 + i as u64, flags: 0b1 }],
        })
        .collect();
    let required = required_extensions();
    let progress = Progress::start()
        .advance(Reply::Done, &required)
        .advance(Reply::Done, &required)
        .advance(Reply::Devices(devices), &required)
        .advance(Reply::Done, &required);
    match progress {
        Progress::Ready(backend) => backend,
        other => panic!("bringing up ended in {:?}", other),
    }
}

#[test]
fn a_new_cell_is_empty() {
    assert_eq!(BackendCell::new(), BackendCell::Uninitialized);
    assert_eq!(BackendCell::new().get(), None);
}

#[test]
fn the_first_access_brings_the_backend_up() {
    let mut cell = BackendCell::new();
    let made = brought_up(2);
    let got = backend(&mut cell, || Ok(made)).copied();
    assert_eq!(got, Ok(Backend::Vk(made)));
    assert_eq!(cell, BackendCell::Initialized(Ok(Backend::Vk(made))));
    assert_eq!(cell.get(), Some(Ok(&Backend::Vk(made))));
    match got {
        Ok(Backend::Vk(vk)) => {
            assert_eq!(vk.gpu(), 2);
            assert_eq!(vk.queue_family(), QueueFamily(1));
        }
        Err(_) => panic!("the backend should be up"),
    }
}

#[test]
fn the_backend_is_brought_up_once() {
    let runs = Cell::new(0u32);
    let mut cell = BackendCell::new();
    let first = backend(&mut cell, || {
        runs.set(runs.get() + 1);
        Ok(brought_up(0))
    })
    .copied();
    assert_eq!(runs.get(), 1);
    for _ in 0..5 {
        let again = backend(&mut cell, || {
            runs.set(runs.get() + 1);
            Ok(brought_up(3))
        })
        .copied();
        assert_eq!(again, first);
    }
    assert_eq!(runs.get(), 1);
    assert_eq!(first, Ok(Backend::Vk(brought_up(0))));
}

#[test]
fn a_later_access_cannot_replace_the_backend() {
    let mut cell = BackendCell::new();
    let first = backend(&mut cell, || Ok(brought_up(1))).copied();
    let before = cell;
    let second = backend(&mut cell, || Err(VulkanLoadError)).copied();
    assert_eq!(second, first);
    assert_eq!(cell, before);
    let third = backend(&mut cell, || Ok(brought_up(4))).copied();
    assert_eq!(third, first);
    assert_eq!(cell, before);
}

#[test]
fn a_failure_is_recorded_and_not_retried() {
    let runs = Cell::new(0u32);
    let mut cell = BackendCell::new();
    let first = backend(&mut cell, || {
        runs.set(runs.get() + 1);
        Err(VulkanLoadError)
    })
    .copied();
    assert_eq!(first, Err(VulkanLoadError));
    assert_eq!(cell, BackendCell::Initialized(Err(VulkanLoadError)));
    assert_eq!(cell.get(), Some(Err(VulkanLoadError)));
    let second = backend(&mut cell, || {
        runs.set(runs.get() + 1);
        Ok(brought_up(0))
    })
    .copied();
    assert_eq!(second, Err(VulkanLoadError));
    assert_eq!(runs.get(), 1);
}

#[test]
fn a_filled_cell_does_not_run_the_initializer() {
    let mut cell = BackendCell::Initialized(Ok(Backend::Vk(brought_up(0))));
    let got = backend(&mut cell, || -> Result<vk_ml::back::vk::Backend, VulkanLoadError> {
        panic!("the initializer must not run")
    })
    .copied();
    assert_eq!(got, Ok(Backend::Vk(brought_up(0))));
}

#[test]
fn the_backend_is_named_after_its_api() {
    assert_eq!(Backend::Vk(brought_up(0)).name(), "Vk");
}

#[test]
fn backends_on_different_devices_differ() {
    assert_ne!(brought_up(0), brought_up(1));
    assert_eq!(brought_up(1), brought_up(1));
}

#[test]
fn handles_are_all_alike() {
    assert_eq!(Handle, Handle);
}
