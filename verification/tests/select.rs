use vk_ml::back::vk::probe::{MemoryHeap, ProbedDevice, QueueFamily, Verdict};
use vk_ml::back::vk::select::{
    best_gpu, compute_capable, filter_devices, most_vram, with_extension_list,
    with_required_extensions, Candidate, Selection,
};

const GIB: u64 = 1 << 30;
const GRAPHICS: u32 = 0b1;
const COMPUTE: u32 = 0b10;
const TRANSFER: u32 = 0b100;
const DEVICE_LOCAL: u32 = 0b1;
const COOPERATIVE_MATRIX: &str = "VK_KHR_cooperative_matrix";

fn raw(name: &str) -> Vec<i8> {
    let mut out: Vec<i8> = name.bytes().map(|b| b as i8).collect();
    out.resize(256, 0);
    out
}

fn device(families: &[u32], extensions: Option<&[&str]>, local_gib: u64) -> ProbedDevice {
    ProbedDevice {
        name: raw("test gpu"),
        queue_families: families.to_vec(),
        extensions: extensions.map(|list| list.iter().map(|name| raw(name)).collect()),
        heap_count: 1,
        heaps: vec![MemoryHeap { size: local_gib * GIB, flags: DEVICE_LOCAL }],
    }
}

/// A device that passes every filter.
fn fit(local_gib: u64) -> ProbedDevice {
    device(&[GRAPHICS | COMPUTE], Some(&["VK_KHR_swapchain", COOPERATIVE_MATRIX]), local_gib)
}

fn required() -> Vec<String> {
    vec![COOPERATIVE_MATRIX.to_string()]
}

fn indices(cands: &[Candidate]) -> Vec<usize> {
    cands.iter().map(|c| c.index).collect()
}

#[test]
fn a_device_without_the_required_extension_loses_to_a_smaller_one() {
    let a = fit(8);
    let b = device(&[COMPUTE], Some(&["VK_KHR_swapchain"]), 16);
    assert_eq!(
        best_gpu(&[a.clone(), b.clone()], &required()),
        Some(Selection { device: 0, queue_family: QueueFamily(0) })
    );
    assert_eq!(
        best_gpu(&[b, a], &required()),
        Some(Selection { device: 1, queue_family: QueueFamily(0) })
    );
}

#[test]
fn of_two_equal_devices_the_first_is_chosen() {
    let x = fit(4);
    let y = fit(4);
    let choice = best_gpu(&[x, y], &required());
    assert_eq!(choice, Some(Selection { device: 0, queue_family: QueueFamily(0) }));
}

#[test]
fn a_tie_further_down_goes_to_the_earlier_device() {
    let devices = [fit(4), fit(8), fit(8), fit(2)];
    assert_eq!(best_gpu(&devices, &required()).map(|s| s.device), Some(1));
}

#[test]
fn a_tie_among_three_goes_to_the_first() {
    let devices = [fit(8), fit(8), fit(8)];
    assert_eq!(best_gpu(&devices, &required()).map(|s| s.device), Some(0));
}

#[test]
fn a_device_whose_extensions_cannot_be_listed_is_passed_over() {
    let c = device(&[COMPUTE], None, 32);
    let d = fit(2);
    assert_eq!(
        best_gpu(&[c, d], &required()),
        Some(Selection { device: 1, queue_family: QueueFamily(0) })
    );
}

#[test]
fn selection_fails_when_the_only_listed_device_fails_a_later_filter() {
    let c = device(&[COMPUTE], None, 32);
    let d = device(&[COMPUTE], Some(&["VK_KHR_swapchain"]), 2);
    assert_eq!(best_gpu(&[c, d], &required()), None);
}

#[test]
fn selection_over_no_devices_fails() {
    assert_eq!(best_gpu(&[], &required()), None);
    assert_eq!(best_gpu(&[], &[]), None);
}

#[test]
fn selection_fails_when_no_device_has_a_compute_family() {
    let devices = [
        device(&[GRAPHICS, TRANSFER], Some(&[COOPERATIVE_MATRIX]), 8),
        device(&[], Some(&[COOPERATIVE_MATRIX]), 16),
    ];
    assert_eq!(best_gpu(&devices, &required()), None);
    assert_eq!(best_gpu(&devices, &[]), None);
}

#[test]
fn the_device_with_the_most_device_local_memory_wins() {
    let devices = [fit(4), fit(24), fit(16)];
    assert_eq!(best_gpu(&devices, &required()).map(|s| s.device), Some(1));
    let devices = [fit(4), fit(16), fit(24)];
    assert_eq!(best_gpu(&devices, &required()).map(|s| s.device), Some(2));
    let devices = [fit(24), fit(16), fit(4)];
    assert_eq!(best_gpu(&devices, &required()).map(|s| s.device), Some(0));
}

#[test]
fn memory_that_is_not_device_local_does_not_count() {
    let mut big_host = fit(2);
    big_host.heaps.push(MemoryHeap { size: 512 * GIB, flags: 0 });
    big_host.heap_count = 2;
    assert_eq!(big_host.vram(), 2 * (GIB as u128));
    let devices = [big_host, fit(4)];
    assert_eq!(best_gpu(&devices, &required()).map(|s| s.device), Some(1));
}

#[test]
fn the_selection_names_the_winners_first_compute_family() {
    let mut winner = fit(16);
    winner.queue_families = vec![GRAPHICS, TRANSFER, COMPUTE, COMPUTE | GRAPHICS];
    let devices = [fit(8), winner];
    assert_eq!(
        best_gpu(&devices, &required()),
        Some(Selection { device: 1, queue_family: QueueFamily(2) })
    );
}

#[test]
fn an_ineligible_device_with_more_memory_does_not_break_a_tie() {
    let devices = [fit(8), device(&[GRAPHICS], Some(&[COOPERATIVE_MATRIX]), 64), fit(8)];
    assert_eq!(best_gpu(&devices, &required()).map(|s| s.device), Some(0));
}

#[test]
fn every_required_name_is_asked_for() {
    let both = vec![COOPERATIVE_MATRIX.to_string(), "VK_KHR_ray_query".to_string()];
    let devices = [fit(16), device(&[COMPUTE], Some(&["VK_KHR_ray_query", COOPERATIVE_MATRIX]), 8)];
    assert_eq!(best_gpu(&devices, &both).map(|s| s.device), Some(1));
    assert_eq!(best_gpu(&devices, &required()).map(|s| s.device), Some(0));
}

#[test]
fn with_nothing_required_a_listed_compute_device_is_enough() {
    let devices = [device(&[COMPUTE], None, 32), device(&[COMPUTE], Some(&[]), 1)];
    assert_eq!(best_gpu(&devices, &[]).map(|s| s.device), Some(1));
}

#[test]
fn selection_gives_the_same_answer_for_the_same_reports() {
    let devices = vec![fit(4), device(&[COMPUTE], None, 64), fit(12), fit(12), fit(1)];
    let copy = devices.clone();
    let first = best_gpu(&devices, &required());
    assert_eq!(first, Some(Selection { device: 2, queue_family: QueueFamily(0) }));
    assert_eq!(best_gpu(&devices, &required()), first);
    assert_eq!(best_gpu(&copy, &required()), first);
}

#[test]
fn the_filters_keep_no_more_than_they_are_given() {
    let devices = vec![
        fit(4),
        device(&[GRAPHICS], Some(&[COOPERATIVE_MATRIX]), 8),
        device(&[COMPUTE], None, 8),
        device(&[COMPUTE], Some(&["VK_KHR_swapchain"]), 8),
        fit(2),
    ];
    let kept = filter_devices(&devices, &required());
    assert!(kept.len() <= devices.len());
    assert_eq!(indices(&kept), vec![0, 4]);
    for c in &kept {
        assert!(c.device.compute_family().is_some());
        assert!(c.device.extensions.is_some());
        assert!(c.device.supports(&required()));
        assert_eq!(c.device.verdict(&required()), Verdict::Eligible(c.queue_family));
        assert_eq!(c.device, &devices[c.index]);
    }
}

#[test]
fn the_filters_may_keep_everything_or_nothing() {
    let all = vec![fit(1), fit(2), fit(3)];
    assert_eq!(indices(&filter_devices(&all, &required())), vec![0, 1, 2]);
    let none = vec![device(&[], None, 1), device(&[COMPUTE], None, 2)];
    assert!(filter_devices(&none, &required()).is_empty());
    assert!(filter_devices(&[], &required()).is_empty());
}

#[test]
fn compute_capable_keeps_devices_with_a_compute_family() {
    let devices = vec![
        device(&[GRAPHICS], None, 1),
        device(&[TRANSFER, COMPUTE], None, 1),
        device(&[], None, 1),
        device(&[COMPUTE], Some(&[]), 1),
    ];
    let kept = compute_capable(&devices);
    assert_eq!(indices(&kept), vec![1, 3]);
    assert_eq!(kept[0].queue_family, QueueFamily(1));
    assert_eq!(kept[1].queue_family, QueueFamily(0));
    assert_eq!(kept[0].device, &devices[1]);
    assert_eq!(kept[1].device, &devices[3]);
}

#[test]
fn with_extension_list_keeps_listed_devices_in_order() {
    let listed = device(&[COMPUTE], Some(&[]), 1);
    let unlisted = device(&[COMPUTE], None, 1);
    let cands = [
        Candidate { index: 3, device: &unlisted, queue_family: QueueFamily(0) },
        Candidate { index: 5, device: &listed, queue_family: QueueFamily(1) },
        Candidate { index: 6, device: &unlisted, queue_family: QueueFamily(2) },
        Candidate { index: 9, device: &listed, queue_family: QueueFamily(3) },
    ];
    let kept = with_extension_list(&cands);
    assert_eq!(kept, vec![cands[1], cands[3]]);
    assert!(with_extension_list(&[]).is_empty());
}

#[test]
fn with_required_extensions_keeps_supporting_devices_in_order() {
    let good = fit(1);
    let bad = device(&[COMPUTE], Some(&["VK_KHR_swapchain"]), 1);
    let unlisted = device(&[COMPUTE], None, 1);
    let cands = [
        Candidate { index: 0, device: &good, queue_family: QueueFamily(0) },
        Candidate { index: 1, device: &bad, queue_family: QueueFamily(0) },
        Candidate { index: 2, device: &unlisted, queue_family: QueueFamily(0) },
        Candidate { index: 3, device: &good, queue_family: QueueFamily(7) },
    ];
    let kept = with_required_extensions(&cands, &required());
    assert_eq!(kept, vec![cands[0], cands[3]]);
    let kept = with_required_extensions(&cands, &[]);
    assert_eq!(kept, vec![cands[0], cands[1], cands[3]]);
}

#[test]
fn most_vram_is_the_earliest_maximum() {
    let small = fit(2);
    let large = fit(8);
    let cands = [
        Candidate { index: 0, device: &small, queue_family: QueueFamily(0) },
        Candidate { index: 1, device: &large, queue_family: QueueFamily(1) },
        Candidate { index: 2, device: &large, queue_family: QueueFamily(2) },
        Candidate { index: 3, device: &small, queue_family: QueueFamily(3) },
    ];
    assert_eq!(most_vram(&cands), Some(cands[1]));
    assert_eq!(most_vram(&cands[2..]), Some(cands[2]));
    assert_eq!(most_vram(&cands[3..]), Some(cands[3]));
    assert_eq!(most_vram(&[cands[0], cands[3]]), Some(cands[0]));
}

#[test]
fn most_vram_of_nothing_is_none() {
    assert_eq!(most_vram(&[]), None);
}

#[test]
fn most_vram_takes_the_first_even_when_all_scores_are_zero() {
    let empty = device(&[COMPUTE], Some(&[]), 0);
    let cands = [
        Candidate { index: 4, device: &empty, queue_family: QueueFamily(0) },
        Candidate { index: 7, device: &empty, queue_family: QueueFamily(0) },
    ];
    assert_eq!(most_vram(&cands), Some(cands[0]));
}
