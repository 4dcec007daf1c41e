//! What the driver reports about one physical device, and what that report says about the
//! device's fitness for compute work.

use vstd::prelude::*;

use super::outside::{heap_flags_are_device_local, queue_flags_have_compute};
use super::text::{as_cstr, c_text, holds_text};

verus! {

/// The index of a queue family on the device that reported it.
#[derive(Clone, Copy, Debug, PartialEq, Eq, Structural)]
pub struct QueueFamily(pub u32);

/// One memory heap of a device: its size in bytes and its flag word.
#[derive(Clone, Copy, Debug, PartialEq, Eq, Structural)]
pub struct MemoryHeap {
    pub size: u64,
    pub flags: u32,
}

/// Everything the selection reads about one physical device, as the driver reported it.
#[derive(Clone, Debug, PartialEq, Eq)]
pub struct ProbedDevice {
    /// The device name, NUL-terminated.
    pub name: Vec<i8>,
    /// The capability word of each queue family, in the driver's order.
    pub queue_families: Vec<u32>,
    /// The NUL-terminated name of each supported extension, or `None` if the driver failed
    /// to list them.
    pub extensions: Option<Vec<Vec<i8>>>,
    /// How many entries of `heaps` the driver filled in.
    pub heap_count: u32,
    pub heaps: Vec<MemoryHeap>,
}

/// The mathematical content of a [`ProbedDevice`].
pub struct DeviceModel {
    pub name: Seq<i8>,
    pub queue_families: Seq<u32>,
    pub extensions: Option<Seq<Seq<i8>>>,
    pub heap_count: u32,
    pub heaps: Seq<MemoryHeap>,
}

impl View for ProbedDevice {
    type V = DeviceModel;

    open spec fn view(&self) -> DeviceModel {
        DeviceModel {
            name: self.name@,
            queue_families: self.queue_families@,
            extensions: match self.extensions {
                Some(list) => Some(raw_names(list@)),
                None => None,
            },
            heap_count: self.heap_count,
            heaps: self.heaps@,
        }
    }
}

/// Why a device is out of the running, or the queue family it would be driven through.
///
/// The reasons are tested in the order listed, and the first that applies is the verdict.
#[derive(Clone, Copy, Debug, PartialEq, Eq, Structural)]
pub enum Verdict {
    /// No queue family of the device can run compute work.
    NoCompute,
    /// The driver failed to list the device's extensions.
    ExtensionsUnavailable,
    /// A required extension is not among those the device supports.
    MissingExtension,
    /// The device meets every requirement.
    Eligible(QueueFamily),
}

/// The character arrays of a list of reported names.
pub open spec fn raw_names(list: Seq<Vec<i8>>) -> Seq<Seq<i8>> {
    list.map_values(|raw: Vec<i8>| raw@)
}

/// The texts of a list of required names.
pub open spec fn texts(names: Seq<String>) -> Seq<Seq<char>> {
    names.map_values(|name: String| name@)
}

/// A queue family with this capability word can run compute work.
pub open spec fn has_compute(flags: u32) -> bool {
    flags & 0b10 == 0b10
}

/// A memory heap with this flag word is attached to the device itself.
pub open spec fn is_device_local(flags: u32) -> bool {
    flags & 0b1 == 0b1
}

/// `i` is the position of the first compute-capable family in `families`.
pub open spec fn is_first_compute(families: Seq<u32>, i: int) -> bool {
    &&& 0 <= i < families.len()
    &&& has_compute(families[i])
    &&& forall|j: int| 0 <= j < i ==> !has_compute(families[j])
}

/// The first compute-capable family, provided its position fits a queue family index.
pub open spec fn compute_family(families: Seq<u32>) -> Option<QueueFamily> {
    if exists|i: int| is_first_compute(families, i) && i <= u32::MAX {
        Some(QueueFamily((choose|i: int| is_first_compute(families, i) && i <= u32::MAX) as u32))
    } else {
        None
    }
}

/// What `heap` adds to a device's score: its size if it is device-local, nothing otherwise.
pub open spec fn local_size(heap: MemoryHeap) -> nat {
    if is_device_local(heap.flags) {
        heap.size as nat
    } else {
        0
    }
}

/// The summed size of the device-local heaps among `heaps`.
pub open spec fn device_local_total(heaps: Seq<MemoryHeap>) -> nat
    decreases heaps.len(),
{
    if heaps.len() == 0 {
        0
    } else {
        device_local_total(heaps.drop_last()) + local_size(heaps.last())
    }
}

/// Some entry of `extensions` holds exactly the text `name`.
pub open spec fn advertises(extensions: Seq<Seq<i8>>, name: Seq<char>) -> bool {
    exists|j: int| 0 <= j < extensions.len() && c_text(#[trigger] extensions[j]) == Some(name)
}

/// Every name in `required` is held by some entry of `extensions`.
pub open spec fn advertises_all(extensions: Seq<Seq<i8>>, required: Seq<Seq<char>>) -> bool {
    forall|k: int| 0 <= k < required.len() ==> advertises(extensions, #[trigger] required[k])
}

impl DeviceModel {
    /// The first requirement: some queue family can run compute work.
    pub open spec fn passes_compute(self) -> bool {
        compute_family(self.queue_families) is Some
    }

    /// The second requirement: the driver listed the device's extensions.
    pub open spec fn passes_listing(self) -> bool {
        self.extensions is Some
    }

    /// The third requirement: the listed extensions hold every name in `required`.
    pub open spec fn passes_required(self, required: Seq<Seq<char>>) -> bool {
        match self.extensions {
            Some(list) => advertises_all(list, required),
            None => false,
        }
    }

    /// The device meets all three requirements.
    pub open spec fn eligible(self, required: Seq<Seq<char>>) -> bool {
        self.passes_compute() && self.passes_listing() && self.passes_required(required)
    }

    /// The first requirement the device fails, or the queue family found for it.
    pub open spec fn verdict(self, required: Seq<Seq<char>>) -> Verdict {
        match compute_family(self.queue_families) {
            None => Verdict::NoCompute,
            Some(family) => if !self.passes_listing() {
                Verdict::ExtensionsUnavailable
            } else if !self.passes_required(required) {
                Verdict::MissingExtension
            } else {
                Verdict::Eligible(family)
            },
        }
    }

    /// The heaps that count: the first `heap_count` of those reported.
    pub open spec fn counted_heaps(self) -> Seq<MemoryHeap> {
        if self.heap_count < self.heaps.len() {
            self.heaps.take(self.heap_count as int)
        } else {
            self.heaps
        }
    }

    /// The device's score: the bytes of device-local memory it reports.
    pub open spec fn vram(self) -> nat {
        device_local_total(self.counted_heaps())
    }
}

/// A sequence has at most one first compute-capable family.
pub proof fn lemma_first_compute_unique(families: Seq<u32>, i: int, j: int)
    requires
        is_first_compute(families, i),
        is_first_compute(families, j),
    ensures
        i == j,
{
    if i < j {
        assert(!has_compute(families[i]));
    } else if j < i {
        assert(!has_compute(families[j]));
    }
}

/// The verdict says no more and no less than the three requirements: a device is found
/// eligible exactly if it meets all three, and then with its first compute-capable family;
/// otherwise the verdict names the first requirement, in their order, that the device
/// fails.
pub proof fn lemma_verdict_follows_requirements(device: DeviceModel, required: Seq<Seq<char>>)
    ensures
        device.verdict(required) is Eligible <==> device.eligible(required),
        device.verdict(required) matches Verdict::Eligible(family) ==> Some(family)
            == compute_family(device.queue_families),
        device.verdict(required) is NoCompute <==> !device.passes_compute(),
        device.verdict(required) is ExtensionsUnavailable <==> device.passes_compute()
            && !device.passes_listing(),
        device.verdict(required) is MissingExtension <==> device.passes_compute()
            && device.passes_listing() && !device.passes_required(required),
{
}

/// A heap put in at any position adds exactly its `local_size` to the total.
proof fn lemma_total_with_heap(heaps: Seq<MemoryHeap>, at: int, heap: MemoryHeap)
    requires
        0 <= at <= heaps.len(),
    ensures
        device_local_total(heaps.insert(at, heap)) == device_local_total(heaps) + local_size(
            heap,
        ),
    decreases heaps.len(),
{
    let longer = heaps.insert(at, heap);
    if at == heaps.len() {
        assert(longer.drop_last() == heaps);
    } else {
        assert(longer.drop_last() == heaps.drop_last().insert(at, heap));
        lemma_total_with_heap(heaps.drop_last(), at, heap);
    }
}

/// Scoring is monotone in the heaps. Let `more` report the heaps that `device` reports and
/// one further heap, at any position. If the further heap is device-local, the score of
/// `more` is that of `device` plus the heap's size, so never lower; if it is not, the two
/// scores are equal.
pub proof fn lemma_vram_with_heap(device: DeviceModel, more: DeviceModel, at: int, heap: MemoryHeap)
    requires
        0 <= at <= device.counted_heaps().len(),
        more.counted_heaps() == device.counted_heaps().insert(at, heap),
    ensures
        more.vram() == device.vram() + local_size(heap),
        is_device_local(heap.flags) ==> more.vram() == device.vram() + heap.size,
        is_device_local(heap.flags) ==> more.vram() >= device.vram(),
        !is_device_local(heap.flags) ==> more.vram() == device.vram(),
{
    lemma_total_with_heap(device.counted_heaps(), at, heap);
}

impl MemoryHeap {
    /// Whether the heap is memory of the device itself.
    pub fn device_local(&self) -> (yes: bool)
        ensures
            yes == is_device_local(self.flags),
    {
        heap_flags_are_device_local(self.flags)
    }
}

/// Searches `families` in order for the first capability word that allows compute work.
pub(crate) fn first_compute_family(families: &[u32]) -> (family: Option<QueueFamily>)
    ensures
        family == compute_family(families@),
{
    let mut i: usize = 0;
    while i < families.len()
        invariant
            i <= families@.len(),
            forall|j: int| 0 <= j < i ==> !has_compute(families@[j]),
        decreases families@.len() - i,
    {
        if queue_flags_have_compute(families[i]) {
            proof {
                assert(is_first_compute(families@, i as int));
                assert forall|k: int| is_first_compute(families@, k) implies k == i by {
                    lemma_first_compute_unique(families@, i as int, k);
                }
            }
            if i > u32::MAX as usize {
                return None;
            }
            return Some(QueueFamily(i as u32));
        }
        i += 1;
    }
    assert(forall|k: int| !is_first_compute(families@, k));
    None
}

/// Whether some entry of `list` holds exactly the text `name`.
fn list_advertises(list: &Vec<Vec<i8>>, name: &str) -> (yes: bool)
    ensures
        yes == advertises(raw_names(list@), name@),
{
    let mut j: usize = 0;
    while j < list.len()
        invariant
            j <= list@.len(),
            forall|k: int| 0 <= k < j ==> c_text(#[trigger] raw_names(list@)[k]) != Some(name@),
        decreases list@.len() - j,
    {
        if holds_text(list[j].as_slice(), name) {
            assert(c_text(raw_names(list@)[j as int]) == Some(name@));
            return true;
        }
        j += 1;
    }
    false
}

/// Whether every name in `required` is held by some entry of `list`.
pub(crate) fn list_advertises_all(list: &Vec<Vec<i8>>, required: &[String]) -> (yes: bool)
    ensures
        yes == advertises_all(raw_names(list@), texts(required@)),
{
    let mut k: usize = 0;
    while k < required.len()
        invariant
            k <= required@.len(),
            forall|m: int|
                0 <= m < k ==> advertises(raw_names(list@), #[trigger] texts(required@)[m]),
        decreases required@.len() - k,
    {
        if !list_advertises(list, required[k].as_str()) {
            assert(!advertises(raw_names(list@), texts(required@)[k as int]));
            return false;
        }
        k += 1;
    }
    true
}

/// The extensions a device has to support: cooperative matrices, and for now nothing else.
pub fn required_extensions() -> (names: Vec<String>)
    ensures
        texts(names@) == seq!["VK_KHR_cooperative_matrix"@],
{
    let mut names: Vec<String> = Vec::new();
    names.push("VK_KHR_cooperative_matrix".to_owned());
    assert(texts(names@) =~= seq!["VK_KHR_cooperative_matrix"@]);
    names
}

impl ProbedDevice {
    /// The device's name for messages, or a stand-in if the driver reported none that can
    /// be read.
    pub fn display_name(&self) -> (name: &str)
        ensures
            match c_text(self@.name) {
                Some(text) => name@ == text,
                None => name@ == "<invalid gpu name>"@,
            },
    {
        match as_cstr(self.name.as_slice()) {
            Some(name) => name,
            None => "<invalid gpu name>",
        }
    }

    /// Whether the driver listed the device's extensions and the list holds every name in
    /// `required`.
    pub fn supports(&self, required: &[String]) -> (yes: bool)
        ensures
            yes == self@.passes_required(texts(required@)),
    {
        match &self.extensions {
            Some(list) => list_advertises_all(list, required),
            None => false,
        }
    }

    /// Tests the three requirements in order and reports the first that fails.
    pub fn verdict(&self, required: &[String]) -> (verdict: Verdict)
        ensures
            verdict == self@.verdict(texts(required@)),
    {
        match self.compute_family() {
            None => Verdict::NoCompute,
            Some(family) => {
                if self.extensions.is_none() {
                    Verdict::ExtensionsUnavailable
                } else if !self.supports(required) {
                    Verdict::MissingExtension
                } else {
                    Verdict::Eligible(family)
                }
            },
        }
    }

    /// Searches the queue families in the driver's order for the first one that can run
    /// compute work.
    pub fn compute_family(&self) -> (family: Option<QueueFamily>)
        ensures
            family == compute_family(self@.queue_families),
    {
        first_compute_family(self.queue_families.as_slice())
    }

    /// Sums the sizes of the device-local heaps among the first `heap_count` heaps.
    pub fn vram(&self) -> (bytes: u128)
        ensures
            bytes == self@.vram(),
    {
        let counted: usize = if (self.heap_count as usize) < self.heaps.len() {
            self.heap_count as usize
        } else {
            self.heaps.len()
        };
        let ghost heaps = self@.counted_heaps();
        let mut total: u128 = 0;
        let mut i: usize = 0;
        while i < counted
            invariant
                i <= counted,
                counted == heaps.len(),
                counted <= self.heaps@.len(),
                forall|j: int| 0 <= j < counted ==> heaps[j] == self.heaps@[j],
                total == device_local_total(heaps.take(i as int)),
                total <= i * 0xffff_ffff_ffff_ffff,
            decreases counted - i,
        {
            proof {
                assert(heaps.take(i as int + 1).drop_last() == heaps.take(i as int));
            }
            if self.heaps[i].device_local() {
                total = total + self.heaps[i].size as u128;
            }
            i += 1;
        }
        assert(heaps.take(counted as int) == heaps);
        total
    }
}

} // verus!
