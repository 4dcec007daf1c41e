//! Probing one device question by question, so that a device that is already out of the
//! running is asked nothing further.
//!
//! The questions follow the order of the requirements: the queue families first, the
//! extensions only of a device with a compute-capable family, the memory heaps only of a
//! device that meets all three requirements.

use vstd::prelude::*;

use super::probe::{
    advertises_all, compute_family, first_compute_family, list_advertises_all, raw_names, texts,
    DeviceModel, MemoryHeap, ProbedDevice,
};
use super::select::{chosen, lemma_choice_reads_verdict_and_score};

verus! {

/// What to ask a device next.
#[derive(Clone, Copy, Debug, PartialEq, Eq, Structural)]
pub enum Query {
    /// Ask for the queue families.
    QueueFamilies,
    /// Ask for the supported extensions.
    Extensions,
    /// Ask for the memory heaps.
    MemoryHeaps,
    /// Ask nothing more: the device fails a requirement.
    Discard,
    /// Ask nothing more: the device meets the requirements and has answered everything.
    Complete,
}

/// What a device answered when asked for its extensions, if it was asked.
#[derive(Clone, Debug, PartialEq, Eq)]
pub enum Listing {
    NotAsked,
    /// The driver failed to list them.
    Failed,
    /// The NUL-terminated name of each supported extension.
    Listed(Vec<Vec<i8>>),
}

/// The memory heaps as the driver reports them.
#[derive(Clone, Debug, PartialEq, Eq)]
pub struct Memory {
    /// How many entries of `heaps` the driver filled in.
    pub heap_count: u32,
    pub heaps: Vec<MemoryHeap>,
}

/// What one device has been asked so far, and what it answered.
#[derive(Clone, Debug, PartialEq, Eq)]
pub struct Probe {
    /// The device name, NUL-terminated.
    pub name: Vec<i8>,
    /// The capability word of each queue family, once asked for.
    pub queue_families: Option<Vec<u32>>,
    pub extensions: Listing,
    /// The memory heaps, once asked for.
    pub memory: Option<Memory>,
}

impl Probe {
    /// The question to ask next, given the answers so far.
    pub open spec fn query(self, required: Seq<Seq<char>>) -> Query {
        match self.queue_families {
            None => Query::QueueFamilies,
            Some(families) => if compute_family(families@) is None {
                Query::Discard
            } else {
                match self.extensions {
                    Listing::NotAsked => Query::Extensions,
                    Listing::Failed => Query::Discard,
                    Listing::Listed(list) => if !advertises_all(raw_names(list@), required) {
                        Query::Discard
                    } else if self.memory is None {
                        Query::MemoryHeaps
                    } else {
                        Query::Complete
                    },
                }
            },
        }
    }

    /// The report that the answers so far amount to. What was not asked counts as empty,
    /// and an extension list that was not asked for counts as unavailable.
    pub open spec fn reported(self) -> DeviceModel {
        DeviceModel {
            name: self.name@,
            queue_families: match self.queue_families {
                Some(families) => families@,
                None => Seq::empty(),
            },
            extensions: match self.extensions {
                Listing::Listed(list) => Some(raw_names(list@)),
                _ => None,
            },
            heap_count: match self.memory {
                Some(memory) => memory.heap_count,
                None => 0,
            },
            heaps: match self.memory {
                Some(memory) => memory.heaps@,
                None => Seq::empty(),
            },
        }
    }

    /// Every answer given so far is the one that `device` holds.
    pub open spec fn agrees_with(self, device: DeviceModel) -> bool {
        &&& self.name@ == device.name
        &&& self.queue_families matches Some(families) ==> families@ == device.queue_families
        &&& self.extensions is Failed ==> device.extensions is None
        &&& self.extensions matches Listing::Listed(list) ==> device.extensions == Some(
            raw_names(list@),
        )
        &&& self.memory matches Some(memory) ==> memory.heap_count == device.heap_count
            && memory.heaps@ == device.heaps
    }

    /// A device of which nothing but its name is known.
    pub fn new(name: Vec<i8>) -> (probe: Probe)
        ensures
            probe.name == name,
            probe.queue_families is None,
            probe.extensions is NotAsked,
            probe.memory is None,
    {
        Probe { name, queue_families: None, extensions: Listing::NotAsked, memory: None }
    }

    /// The question to ask the device next.
    ///
    /// `required` names the extensions a device must support to be chosen.
    pub fn next_query(&self, required: &[String]) -> (query: Query)
        ensures
            query == self.query(texts(required@)),
    {
        match &self.queue_families {
            None => Query::QueueFamilies,
            Some(families) => {
                if first_compute_family(families.as_slice()).is_none() {
                    return Query::Discard;
                }
                match &self.extensions {
                    Listing::NotAsked => Query::Extensions,
                    Listing::Failed => Query::Discard,
                    Listing::Listed(list) => {
                        if !list_advertises_all(list, required) {
                            Query::Discard
                        } else if self.memory.is_none() {
                            Query::MemoryHeaps
                        } else {
                            Query::Complete
                        }
                    },
                }
            },
        }
    }

    /// Turns the answers into the report that the selection reads.
    pub fn report(self) -> (device: ProbedDevice)
        ensures
            device@ == self.reported(),
    {
        let (heap_count, heaps) = match self.memory {
            Some(memory) => (memory.heap_count, memory.heaps),
            None => (0, Vec::new()),
        };
        let device = ProbedDevice {
            name: self.name,
            queue_families: match self.queue_families {
                Some(families) => families,
                None => Vec::new(),
            },
            extensions: match self.extensions {
                Listing::Listed(list) => Some(list),
                _ => None,
            },
            heap_count,
            heaps,
        };
        assert(device@.queue_families =~= self.reported().queue_families);
        assert(device@.heaps =~= self.reported().heaps);
        device
    }
}

/// The questions come in the order of the requirements, and each is asked once. The queue
/// families are asked for first. The extensions are asked for only of a device with a
/// compute-capable queue family. The memory heaps are asked for only of a device that
/// meets all three requirements. A device that fails a requirement is asked nothing more.
pub proof fn lemma_questions_follow_requirements(probe: Probe, required: Seq<Seq<char>>)
    ensures
        probe.query(required) is QueueFamilies <==> probe.queue_families is None,
        probe.query(required) is Extensions ==> probe.extensions is NotAsked
            && probe.reported().passes_compute(),
        probe.query(required) is MemoryHeaps ==> probe.memory is None
            && probe.reported().eligible(required),
        probe.query(required) is Complete ==> probe.memory is Some && probe.reported().eligible(
            required,
        ),
        probe.query(required) is Discard ==> !probe.reported().eligible(required),
        probe.queue_families is Some && !probe.reported().passes_compute() ==> probe.query(
            required,
        ) is Discard,
        probe.queue_families is Some && probe.extensions is Failed ==> probe.query(required)
            is Discard,
{
}

/// Asking no more than the questions named loses nothing. Let `device` be all that a
/// device would answer, and let `probe` hold some of those answers, up to the point where
/// there is nothing more to ask. Then the report made from `probe` gets the verdict that
/// `device` gets, and if that verdict is eligibility, the report is `device` itself.
pub proof fn lemma_report_stands_for_device(
    probe: Probe,
    device: DeviceModel,
    required: Seq<Seq<char>>,
)
    requires
        probe.agrees_with(device),
        probe.query(required) is Discard || probe.query(required) is Complete,
    ensures
        probe.reported().verdict(required) == device.verdict(required),
        probe.reported().eligible(required) == device.eligible(required),
        probe.reported().verdict(required) is Eligible ==> probe.reported() == device,
{
    if probe.query(required) is Complete {
        assert(probe.reported().queue_families =~= device.queue_families);
        assert(probe.reported().heaps =~= device.heaps);
        assert(probe.reported() == device);
    }
}

/// What each probe of a list amounts to.
pub open spec fn reports(probes: Seq<Probe>) -> Seq<DeviceModel> {
    probes.map_values(|probe: Probe| probe.reported())
}

/// Selection over devices that were asked question by question gives the answer that
/// selection over all their answers would give.
pub proof fn lemma_selection_over_reports(
    probes: Seq<Probe>,
    devices: Seq<DeviceModel>,
    required: Seq<Seq<char>>,
)
    requires
        probes.len() == devices.len(),
        probes.len() <= usize::MAX,
        forall|i: int|
            0 <= i < probes.len() ==> (#[trigger] probes[i]).agrees_with(devices[i]) && (
            probes[i].query(required) is Discard || probes[i].query(required) is Complete),
    ensures
        chosen(reports(probes), required) == chosen(devices, required),
{
    assert forall|i: int| 0 <= i < probes.len() implies (#[trigger] reports(probes)[i]).verdict(
        required,
    ) == devices[i].verdict(required) && (reports(probes)[i].eligible(required) ==> reports(
        probes,
    )[i].vram() == devices[i].vram()) by {
        lemma_report_stands_for_device(probes[i], devices[i], required);
    }
    lemma_choice_reads_verdict_and_score(reports(probes), devices, required);
}

} // verus!
