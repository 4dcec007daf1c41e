//! Narrowing the enumerated devices to those fit for compute work, and ranking the
//! survivors by device-local memory.

use vstd::prelude::*;

use super::probe::{
    compute_family, lemma_verdict_follows_requirements, texts, DeviceModel, ProbedDevice,
    QueueFamily,
};

verus! {

/// A device still in the running.
#[derive(Clone, Copy, Debug, PartialEq, Eq)]
pub struct Candidate<'a> {
    /// The position of the device in enumeration order.
    pub index: usize,
    /// What the driver reported about the device.
    pub device: &'a ProbedDevice,
    /// The queue family the device would be driven through.
    pub queue_family: QueueFamily,
}

impl<'a> Candidate<'a> {
    /// The candidate stands for the device at its index in `devices`, with that device's
    /// first compute-capable queue family.
    pub open spec fn drawn_from(self, devices: Seq<ProbedDevice>) -> bool {
        &&& self.index < devices.len()
        &&& *self.device == devices[self.index as int]
        &&& Some(self.queue_family) == compute_family(self.device@.queue_families)
    }
}

/// The outcome of a selection: the chosen device, by its position in enumeration order, and
/// the queue family to drive it through.
#[derive(Clone, Copy, Debug, PartialEq, Eq, Structural)]
pub struct Selection {
    pub device: usize,
    pub queue_family: QueueFamily,
}

/// What each device of a list reported.
pub open spec fn models(devices: Seq<ProbedDevice>) -> Seq<DeviceModel> {
    devices.map_values(|d: ProbedDevice| d@)
}

/// The candidate at `k` has the most device-local memory of all, and more than every
/// candidate in front of it.
pub open spec fn is_top(cands: Seq<Candidate>, k: int) -> bool {
    &&& 0 <= k < cands.len()
    &&& forall|j: int|
        0 <= j < cands.len() ==> (#[trigger] cands[j]).device@.vram() <= cands[k].device@.vram()
    &&& forall|j: int|
        0 <= j < k ==> (#[trigger] cands[j]).device@.vram() < cands[k].device@.vram()
}

/// The device at `i` is eligible, no eligible device has more device-local memory, and
/// every eligible device in front of it has less.
pub open spec fn is_best(devices: Seq<DeviceModel>, required: Seq<Seq<char>>, i: int) -> bool {
    &&& 0 <= i < devices.len()
    &&& devices[i].eligible(required)
    &&& forall|j: int|
        0 <= j < devices.len() && (#[trigger] devices[j]).eligible(required)
            ==> devices[j].vram() <= devices[i].vram()
    &&& forall|j: int|
        0 <= j < i && (#[trigger] devices[j]).eligible(required) ==> devices[j].vram()
            < devices[i].vram()
}

/// `choice` is the right answer for `devices`: the best device with its first
/// compute-capable queue family, or nothing when no device is eligible.
pub open spec fn is_choice(
    devices: Seq<DeviceModel>,
    required: Seq<Seq<char>>,
    choice: Option<Selection>,
) -> bool {
    match choice {
        Some(selection) => {
            &&& is_best(devices, required, selection.device as int)
            &&& Some(selection.queue_family) == compute_family(
                devices[selection.device as int].queue_families,
            )
        },
        None => forall|i: int|
            0 <= i < devices.len() ==> !(#[trigger] devices[i]).eligible(required),
    }
}

/// The right answer for `devices`.
pub open spec fn chosen(devices: Seq<DeviceModel>, required: Seq<Seq<char>>) -> Option<Selection> {
    choose|choice: Option<Selection>| is_choice(devices, required, choice)
}

/// The candidates appear in enumeration order, none twice.
pub open spec fn ascending(cands: Seq<Candidate>) -> bool {
    forall|a: int, b: int| 0 <= a < b < cands.len() ==> cands[a].index < cands[b].index
}

/// `cands` lists, in enumeration order, exactly the devices of `devices` that satisfy
/// `keep`.
pub open spec fn lists_exactly(
    cands: Seq<Candidate>,
    devices: Seq<ProbedDevice>,
    keep: spec_fn(DeviceModel) -> bool,
) -> bool {
    &&& ascending(cands)
    &&& forall|k: int|
        0 <= k < cands.len() ==> (#[trigger] cands[k]).drawn_from(devices) && keep(
            cands[k].device@,
        )
    &&& forall|i: int|
        0 <= i < devices.len() && keep(#[trigger] devices[i]@) ==> exists|k: int|
            0 <= k < cands.len() && (#[trigger] cands[k]).index == i
}

/// The first stage: keeps the devices that have a compute-capable queue family, and records
/// that family with each.
pub fn compute_capable<'a>(devices: &'a [ProbedDevice]) -> (out: Vec<Candidate<'a>>)
    ensures
        out@.len() <= devices@.len(),
        lists_exactly(out@, devices@, |d: DeviceModel| d.passes_compute()),
{
    let mut out: Vec<Candidate<'a>> = Vec::new();
    let mut i: usize = 0;
    while i < devices.len()
        invariant
            i <= devices@.len(),
            out@.len() <= i,
            ascending(out@),
            forall|k: int|
                0 <= k < out@.len() ==> (#[trigger] out@[k]).drawn_from(devices@)
                    && out@[k].index < i,
            forall|j: int|
                0 <= j < i && (#[trigger] devices@[j]@).passes_compute() ==> exists|k: int|
                    0 <= k < out@.len() && (#[trigger] out@[k]).index == j,
        decreases devices@.len() - i,
    {
        let device = &devices[i];
        let ghost before = out@;
        if let Some(queue_family) = device.compute_family() {
            out.push(Candidate { index: i, device, queue_family });
            assert(out@[before.len() as int].index == i);
        }
        proof {
            assert forall|j: int|
                0 <= j < i + 1 && (#[trigger] devices@[j]@).passes_compute() implies exists|
                k: int,
            |
                0 <= k < out@.len() && (#[trigger] out@[k]).index == j by {
                if j < i {
                    let k = choose|k: int|
                        0 <= k < before.len() && (#[trigger] before[k]).index == j;
                    assert(out@[k] == before[k]);
                }
            }
        }
        i += 1;
    }
    out
}

/// Filtering one element more either appends that element or changes nothing.
proof fn lemma_filter_step<T>(s: Seq<T>, i: int, pred: spec_fn(T) -> bool)
    requires
        0 <= i < s.len(),
    ensures
        s.take(i + 1).filter(pred) == if pred(s[i]) {
            s.take(i).filter(pred).push(s[i])
        } else {
            s.take(i).filter(pred)
        },
{
    reveal(Seq::filter);
    assert(s.take(i + 1).drop_last() == s.take(i));
}

/// The second stage: keeps the candidates whose extensions the driver was able to list.
pub fn with_extension_list<'a>(cands: &[Candidate<'a>]) -> (out: Vec<Candidate<'a>>)
    ensures
        out@ == cands@.filter(|c: Candidate| c.device@.passes_listing()),
{
    let mut out: Vec<Candidate<'a>> = Vec::new();
    let mut i: usize = 0;
    assert(cands@.take(0).filter(|c: Candidate| c.device@.passes_listing())
        == Seq::<Candidate>::empty()) by {
        reveal(Seq::filter);
    }
    while i < cands.len()
        invariant
            i <= cands@.len(),
            out@ == cands@.take(i as int).filter(|c: Candidate| c.device@.passes_listing()),
        decreases cands@.len() - i,
    {
        proof {
            lemma_filter_step(cands@, i as int, |c: Candidate| c.device@.passes_listing());
        }
        if cands[i].device.extensions.is_some() {
            out.push(cands[i]);
        }
        i += 1;
    }
    assert(cands@.take(cands@.len() as int) == cands@);
    out
}

/// The third stage: keeps the candidates whose extension list holds every required name.
pub fn with_required_extensions<'a>(cands: &[Candidate<'a>], required: &[String]) -> (out: Vec<
    Candidate<'a>,
>)
    ensures
        out@ == cands@.filter(|c: Candidate| c.device@.passes_required(texts(required@))),
{
    let mut out: Vec<Candidate<'a>> = Vec::new();
    let mut i: usize = 0;
    assert(cands@.take(0).filter(|c: Candidate| c.device@.passes_required(texts(required@)))
        == Seq::<Candidate>::empty()) by {
        reveal(Seq::filter);
    }
    while i < cands.len()
        invariant
            i <= cands@.len(),
            out@ == cands@.take(i as int).filter(
                |c: Candidate| c.device@.passes_required(texts(required@)),
            ),
        decreases cands@.len() - i,
    {
        proof {
            lemma_filter_step(
                cands@,
                i as int,
                |c: Candidate| c.device@.passes_required(texts(required@)),
            );
        }
        if cands[i].device.supports(required) {
            out.push(cands[i]);
        }
        i += 1;
    }
    assert(cands@.take(cands@.len() as int) == cands@);
    out
}

/// Filtering keeps candidates in enumeration order.
proof fn lemma_filter_ascending(cands: Seq<Candidate>, pred: spec_fn(Candidate) -> bool)
    requires
        ascending(cands),
    ensures
        ascending(cands.filter(pred)),
    decreases cands.len(),
{
    reveal(Seq::filter);
    if cands.len() > 0 {
        let front = cands.drop_last();
        lemma_filter_ascending(front, pred);
        if pred(cands.last()) {
            let kept = front.filter(pred);
            assert forall|a: int, b: int| 0 <= a < b < kept.len() + 1 implies kept.push(
                cands.last(),
            )[a].index < kept.push(cands.last())[b].index by {
                if b == kept.len() {
                    assert(kept.contains(kept[a]));
                    front.lemma_filter_contains_rev(pred, kept[a]);
                    let m = choose|m: int| 0 <= m < front.len() && front[m] == kept[a];
                    assert(cands[m].index < cands[cands.len() - 1].index);
                }
            }
        }
    }
}

/// Filtering a list of exactly the devices that satisfy `keep` by a further requirement
/// `also` leaves exactly the devices that satisfy both.
proof fn lemma_filter_lists_exactly(
    cands: Seq<Candidate>,
    devices: Seq<ProbedDevice>,
    keep: spec_fn(DeviceModel) -> bool,
    also: spec_fn(DeviceModel) -> bool,
    pred: spec_fn(Candidate) -> bool,
    both: spec_fn(DeviceModel) -> bool,
)
    requires
        lists_exactly(cands, devices, keep),
        forall|c: Candidate| #[trigger] pred(c) == also(c.device@),
        forall|d: DeviceModel| #[trigger] both(d) == (keep(d) && also(d)),
    ensures
        lists_exactly(cands.filter(pred), devices, both),
{
    let out = cands.filter(pred);
    lemma_filter_ascending(cands, pred);
    assert forall|k: int| 0 <= k < out.len() implies (#[trigger] out[k]).drawn_from(devices)
        && both(out[k].device@) by {
        cands.lemma_filter_pred(pred, k);
        assert(out.contains(out[k]));
        cands.lemma_filter_contains_rev(pred, out[k]);
        let m = choose|m: int| 0 <= m < cands.len() && cands[m] == out[k];
        assert(cands[m].drawn_from(devices));
    }
    assert forall|i: int| 0 <= i < devices.len() && both(#[trigger] devices[i]@) implies exists|
        k: int,
    |
        0 <= k < out.len() && (#[trigger] out[k]).index == i by {
        let m = choose|m: int| 0 <= m < cands.len() && (#[trigger] cands[m]).index == i;
        assert(cands[m].drawn_from(devices));
        assert(pred(cands[m]));
        cands.lemma_filter_contains(pred, m);
        let k = choose|k: int| 0 <= k < out.len() && out[k] == cands[m];
        assert(out[k].index == i);
    }
}

/// What the three filter stages leave, one run after the other, are exactly the devices
/// that meet all three requirements.
proof fn lemma_three_stages(
    devices: Seq<ProbedDevice>,
    required: Seq<Seq<char>>,
    capable: Seq<Candidate>,
    listed: Seq<Candidate>,
    supported: Seq<Candidate>,
)
    requires
        capable.len() <= devices.len(),
        lists_exactly(capable, devices, |d: DeviceModel| d.passes_compute()),
        listed == capable.filter(|c: Candidate| c.device@.passes_listing()),
        supported == listed.filter(|c: Candidate| c.device@.passes_required(required)),
    ensures
        supported.len() <= devices.len(),
        lists_exactly(supported, devices, |d: DeviceModel| d.eligible(required)),
{
    let first_two = |d: DeviceModel| d.passes_compute() && d.passes_listing();
    lemma_filter_lists_exactly(
        capable,
        devices,
        |d: DeviceModel| d.passes_compute(),
        |d: DeviceModel| d.passes_listing(),
        |c: Candidate| c.device@.passes_listing(),
        first_two,
    );
    lemma_filter_lists_exactly(
        listed,
        devices,
        first_two,
        |d: DeviceModel| d.passes_required(required),
        |c: Candidate| c.device@.passes_required(required),
        |d: DeviceModel| d.eligible(required),
    );
    capable.lemma_filter_len(|c: Candidate| c.device@.passes_listing());
    listed.lemma_filter_len(|c: Candidate| c.device@.passes_required(required));
}

/// Runs the three filter stages in order: what is left are exactly the devices that have a
/// compute-capable queue family, whose extensions could be listed, and whose extensions
/// hold every required name.
pub fn filter_devices<'a>(devices: &'a [ProbedDevice], required: &[String]) -> (out: Vec<
    Candidate<'a>,
>)
    ensures
        out@.len() <= devices@.len(),
        lists_exactly(out@, devices@, |d: DeviceModel| d.eligible(texts(required@))),
{
    let capable = compute_capable(devices);
    let listed = with_extension_list(capable.as_slice());
    let supported = with_required_extensions(listed.as_slice(), required);
    proof {
        lemma_three_stages(devices@, texts(required@), capable@, listed@, supported@);
    }
    supported
}

/// The fourth stage: picks the candidate with the most device-local memory, the earliest
/// one if several share the maximum.
pub fn most_vram<'a>(cands: &[Candidate<'a>]) -> (best: Option<Candidate<'a>>)
    ensures
        match best {
            Some(c) => exists|k: int| is_top(cands@, k) && cands@[k] == c,
            None => cands@.len() == 0,
        },
{
    if cands.len() == 0 {
        return None;
    }
    let mut best: usize = 0;
    let mut best_vram: u128 = cands[0].device.vram();
    let mut i: usize = 1;
    while i < cands.len()
        invariant
            best < i <= cands@.len(),
            best_vram == cands@[best as int].device@.vram(),
            forall|j: int| 0 <= j < i ==> (#[trigger] cands@[j]).device@.vram() <= best_vram,
            forall|j: int| 0 <= j < best ==> (#[trigger] cands@[j]).device@.vram() < best_vram,
        decreases cands@.len() - i,
    {
        let vram: u128 = cands[i].device.vram();
        if vram > best_vram {
            best = i;
            best_vram = vram;
        }
        i += 1;
    }
    assert(is_top(cands@, best as int));
    Some(cands[best])
}

/// Chooses the device to run on: among the devices that pass all three filter stages, the
/// one with the most device-local memory, and among equals the one enumerated first.
///
/// Returns `None` when no device passes the filters, which is the case in particular when
/// there is no device at all.
pub fn best_gpu(devices: &[ProbedDevice], required: &[String]) -> (choice: Option<Selection>)
    ensures
        is_choice(models(devices@), texts(required@), choice),
        choice == chosen(models(devices@), texts(required@)),
{
    let ghost names = texts(required@);
    let ghost reported = models(devices@);
    let supported = filter_devices(devices, required);
    let choice = match most_vram(supported.as_slice()) {
        Some(winner) => {
            proof {
                let k = choose|k: int| is_top(supported@, k) && supported@[k] == winner;
                assert(supported@[k].drawn_from(devices@));
                assert forall|j: int|
                    0 <= j < reported.len() && (#[trigger] reported[j]).eligible(
                        names,
                    ) implies reported[j].vram() <= reported[winner.index as int].vram() && (j
                    < winner.index ==> reported[j].vram()
                    < reported[winner.index as int].vram()) by {
                    assert(devices@[j]@.eligible(names));
                    let m = choose|m: int|
                        0 <= m < supported@.len() && (#[trigger] supported@[m]).index == j;
                    assert(supported@[m].drawn_from(devices@));
                    if j < winner.index && m >= k {
                        assert(m > k);
                    }
                }
            }
            Some(Selection { device: winner.index, queue_family: winner.queue_family })
        },
        None => {
            proof {
                assert forall|i: int| 0 <= i < reported.len() implies !(
                #[trigger] reported[i]).eligible(names) by {
                    if devices@[i]@.eligible(names) {
                        let m = choose|m: int|
                            0 <= m < supported@.len() && (#[trigger] supported@[m]).index == i;
                    }
                }
            }
            None
        },
    };
    proof {
        assert(is_choice(reported, names, choice));
        lemma_choice_is_unique(reported, names, choice, chosen(reported, names));
    }
    choice
}

/// Selection is a function of what the devices reported: for one list of reports and one
/// list of required names there is only one right answer.
pub proof fn lemma_choice_is_unique(
    devices: Seq<DeviceModel>,
    required: Seq<Seq<char>>,
    first: Option<Selection>,
    second: Option<Selection>,
)
    requires
        is_choice(devices, required, first),
        is_choice(devices, required, second),
    ensures
        first == second,
{
    match (first, second) {
        (Some(a), Some(b)) => {
            assert(devices[a.device as int].eligible(required));
            assert(devices[b.device as int].eligible(required));
        },
        (Some(a), None) => {
            assert(devices[a.device as int].eligible(required));
        },
        (None, Some(b)) => {
            assert(devices[b.device as int].eligible(required));
        },
        (None, None) => {},
    }
}

/// Every list of reports has a right answer.
pub proof fn lemma_choice_exists(devices: Seq<DeviceModel>, required: Seq<Seq<char>>)
    requires
        devices.len() <= usize::MAX,
    ensures
        is_choice(devices, required, chosen(devices, required)),
    decreases devices.len(),
{
    let none: Option<Selection> = None;
    if devices.len() == 0 {
        assert(is_choice(devices, required, none));
    } else {
        let front = devices.drop_last();
        let last = devices.len() - 1;
        lemma_choice_exists(front, required);
        let best = match chosen(front, required) {
            Some(selection) => {
                let i = selection.device as int;
                assert(front[i].eligible(required));
                if devices[last].eligible(required) && devices[last].vram() > front[i].vram() {
                    last
                } else {
                    i
                }
            },
            None => last,
        };
        assert forall|j: int| 0 <= j < last implies #[trigger] devices[j] == front[j] by {}
        if chosen(front, required) is None && !devices[last].eligible(required) {
            assert forall|i: int| 0 <= i < devices.len() implies !(#[trigger] devices[i]).eligible(
                required,
            ) by {
                if i < last {
                    assert(!front[i].eligible(required));
                }
            }
            assert(is_choice(devices, required, none));
        } else {
            assert forall|j: int|
                0 <= j < devices.len() && (#[trigger] devices[j]).eligible(
                    required,
                ) implies devices[j].vram() <= devices[best].vram() && (j < best
                ==> devices[j].vram() < devices[best].vram()) by {
                if j < last {
                    assert(front[j].eligible(required));
                }
            }
            assert(is_best(devices, required, best));
            let family = compute_family(devices[best].queue_families);
            let some = Some(Selection { device: best as usize, queue_family: family->0 });
            assert(is_choice(devices, required, some));
        }
    }
}

/// One list of reports gives the right answers of another if, position by position, the
/// verdicts are the same and, where the verdict is eligibility, the scores are the same.
proof fn lemma_same_verdicts_same_answers(
    these: Seq<DeviceModel>,
    those: Seq<DeviceModel>,
    required: Seq<Seq<char>>,
    choice: Option<Selection>,
)
    requires
        these.len() == those.len(),
        forall|i: int|
            0 <= i < these.len() ==> (#[trigger] these[i]).verdict(required) == those[i].verdict(
                required,
            ),
        forall|i: int|
            0 <= i < these.len() && (#[trigger] these[i]).eligible(required) ==> these[i].vram()
                == those[i].vram(),
        is_choice(these, required, choice),
    ensures
        is_choice(those, required, choice),
{
    assert forall|i: int| 0 <= i < these.len() implies (#[trigger] those[i]).eligible(required)
        == these[i].eligible(required) && (those[i].eligible(required) ==> compute_family(
        those[i].queue_families,
    ) == compute_family(these[i].queue_families)) by {
        lemma_verdict_follows_requirements(these[i], required);
        lemma_verdict_follows_requirements(those[i], required);
    }
    match choice {
        Some(selection) => {
            let best = selection.device as int;
            assert(these[best].eligible(required));
            assert forall|j: int|
                0 <= j < those.len() && (#[trigger] those[j]).eligible(
                    required,
                ) implies those[j].vram() <= those[best].vram() && (j < best ==> those[j].vram()
                < those[best].vram()) by {
                assert(these[j].eligible(required));
            }
        },
        None => {
            assert forall|i: int| 0 <= i < those.len() implies !(#[trigger] those[i]).eligible(
                required,
            ) by {
                assert(!these[i].eligible(required));
            }
        },
    }
}

/// The selection reads of each device only its verdict and, if that is eligibility, its
/// score: two lists of reports that agree in these, position by position, have the same
/// right answer.
pub proof fn lemma_choice_reads_verdict_and_score(
    these: Seq<DeviceModel>,
    those: Seq<DeviceModel>,
    required: Seq<Seq<char>>,
)
    requires
        these.len() == those.len(),
        these.len() <= usize::MAX,
        forall|i: int|
            0 <= i < these.len() ==> (#[trigger] these[i]).verdict(required) == those[i].verdict(
                required,
            ),
        forall|i: int|
            0 <= i < these.len() && (#[trigger] these[i]).eligible(required) ==> these[i].vram()
                == those[i].vram(),
    ensures
        chosen(these, required) == chosen(those, required),
{
    lemma_choice_exists(these, required);
    lemma_choice_exists(those, required);
    lemma_same_verdicts_same_answers(these, those, required, chosen(these, required));
    lemma_choice_is_unique(those, required, chosen(these, required), chosen(those, required));
}

/// Of two eligible devices with equal device-local memory, the later one is never chosen.
pub proof fn lemma_tie_goes_to_the_earlier(
    devices: Seq<DeviceModel>,
    required: Seq<Seq<char>>,
    earlier: int,
    later: int,
)
    requires
        devices.len() <= usize::MAX,
        0 <= earlier < later < devices.len(),
        devices[earlier].eligible(required),
        devices[later].eligible(required),
        devices[earlier].vram() == devices[later].vram(),
    ensures
        !is_best(devices, required, later),
        chosen(devices, required) matches Some(selection) && selection.device != later,
{
    lemma_choice_exists(devices, required);
    if chosen(devices, required) is None {
        assert(!devices[earlier].eligible(required));
    }
}

/// With no device at all, or with no device that has a compute-capable queue family, the
/// right answer is to choose nothing.
pub proof fn lemma_nothing_to_choose(
    devices: Seq<DeviceModel>,
    required: Seq<Seq<char>>,
    choice: Option<Selection>,
)
    requires
        is_choice(devices, required, choice),
        devices.len() == 0 || forall|i: int|
            0 <= i < devices.len() ==> !(#[trigger] devices[i]).passes_compute(),
    ensures
        choice is None,
{
    if let Some(selection) = choice {
        assert(devices[selection.device as int].eligible(required));
    }
}

} // verus!
