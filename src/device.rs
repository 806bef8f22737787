//! Choice of the physical device and of its graphics queue family.
use vstd::prelude::*;

verus! {

/// The kind of a physical device, as the driver reports it.
#[derive(Clone, Copy, Debug, PartialEq, Eq, Structural)]
pub enum DeviceKind {
    DiscreteGpu,
    IntegratedGpu,
    VirtualGpu,
    Cpu,
    Other,
    /// A kind that this library does not know of.
    Unknown,
}

/// Preference order of device kinds: lower is better.
pub open spec fn kind_rank(k: DeviceKind) -> nat {
    match k {
        DeviceKind::DiscreteGpu => 0,
        DeviceKind::IntegratedGpu => 1,
        DeviceKind::VirtualGpu => 2,
        DeviceKind::Cpu => 3,
        DeviceKind::Other => 4,
        DeviceKind::Unknown => 5,
    }
}

impl DeviceKind {
    /// The position of this kind in the preference order (0 is preferred).
    pub fn preference_rank(&self) -> (r: u8)
        ensures
            r as nat == kind_rank(*self),
    {
        match self {
            DeviceKind::DiscreteGpu => 0,
            DeviceKind::IntegratedGpu => 1,
            DeviceKind::VirtualGpu => 2,
            DeviceKind::Cpu => 3,
            DeviceKind::Other => 4,
            DeviceKind::Unknown => 5,
        }
    }
}

/// What the library needs to know of one enumerated physical device.
#[derive(Clone, Debug)]
pub struct DeviceCandidate {
    pub kind: DeviceKind,
    /// Whether the device supports every required device extension.
    pub supports_required_extensions: bool,
    /// For each queue family of the device, in order, whether it supports
    /// graphics work.
    pub queue_family_graphics: Vec<bool>,
}

/// The device that was chosen and the queue family to create the queue on.
#[derive(Clone, Copy, Debug, PartialEq, Eq, Structural)]
pub struct DeviceChoice {
    /// Position of the device in the enumeration.
    pub index: usize,
    /// Position of its first queue family with graphics support.
    pub queue_family: usize,
}

/// `i` is the first queue family that supports graphics.
pub open spec fn is_first_graphics_family(flags: Seq<bool>, i: int) -> bool {
    &&& 0 <= i < flags.len()
    &&& flags[i]
    &&& forall|j: int| 0 <= j < i ==> !flags[j]
}

/// A device qualifies when it has the required extensions and at least one
/// queue family with graphics support.
pub open spec fn is_eligible(c: DeviceCandidate) -> bool {
    &&& c.supports_required_extensions
    &&& exists|i: int| 0 <= i < c.queue_family_graphics@.len() && c.queue_family_graphics@[i]
}

/// Device `i` is the one to use: it qualifies, no qualifying device has a
/// better kind, and none before it has a kind as good.
pub open spec fn is_selected(cands: Seq<DeviceCandidate>, i: int) -> bool {
    &&& 0 <= i < cands.len()
    &&& is_eligible(cands[i])
    &&& forall|j: int|
        0 <= j < cands.len() && is_eligible(#[trigger] cands[j]) ==> kind_rank(cands[i].kind)
            <= kind_rank(cands[j].kind)
    &&& forall|j: int|
        0 <= j < i && is_eligible(#[trigger] cands[j]) ==> kind_rank(cands[i].kind) < kind_rank(
            cands[j].kind,
        )
}

/// The first queue family that supports graphics, if any.
pub fn first_graphics_family(flags: &Vec<bool>) -> (r: Option<usize>)
    ensures
        r is None <==> forall|j: int| 0 <= j < flags@.len() ==> !flags@[j],
        r matches Some(i) ==> is_first_graphics_family(flags@, i as int),
{
    let mut i: usize = 0;
    while i < flags.len()
        invariant
            i <= flags@.len(),
            forall|j: int| 0 <= j < i ==> !flags@[j],
        decreases flags@.len() - i,
    {
        if flags[i] {
            return Some(i);
        }
        i = i + 1;
    }
    None
}

/// Picks the device to render on: among the devices that have the required
/// extensions and a graphics queue family, the first one of the best kind
/// (discrete, then integrated, virtual, CPU, other, unknown). Returns `None`
/// when no device qualifies.
pub fn select_device(cands: &Vec<DeviceCandidate>) -> (r: Option<DeviceChoice>)
    ensures
        r is None <==> forall|j: int| 0 <= j < cands@.len() ==> !is_eligible(#[trigger] cands@[j]),
        r matches Some(ch) ==> {
            &&& is_selected(cands@, ch.index as int)
            &&& is_first_graphics_family(
                cands@[ch.index as int].queue_family_graphics@,
                ch.queue_family as int,
            )
        },
{
    let mut best: Option<DeviceChoice> = None;
    let mut best_rank: u8 = 0;
    let mut i: usize = 0;
    while i < cands.len()
        invariant
            i <= cands@.len(),
            best is None ==> forall|j: int| 0 <= j < i ==> !is_eligible(#[trigger] cands@[j]),
            best matches Some(ch) ==> {
                &&& ch.index < i
                &&& is_eligible(cands@[ch.index as int])
                &&& best_rank as nat == kind_rank(cands@[ch.index as int].kind)
                &&& is_first_graphics_family(
                    cands@[ch.index as int].queue_family_graphics@,
                    ch.queue_family as int,
                )
                &&& forall|j: int|
                    0 <= j < i && is_eligible(#[trigger] cands@[j]) ==> (best_rank as nat)
                        <= kind_rank(cands@[j].kind)
                &&& forall|j: int|
                    0 <= j < ch.index && is_eligible(#[trigger] cands@[j]) ==> (best_rank as nat)
                        < kind_rank(cands@[j].kind)
            },
        decreases cands@.len() - i,
    {
        let c = &cands[i];
        if c.supports_required_extensions {
            if let Some(f) = first_graphics_family(&c.queue_family_graphics) {
                let rank = c.kind.preference_rank();
                let better = match best {
                    None => true,
                    Some(_) => rank < best_rank,
                };
                if better {
                    best = Some(DeviceChoice { index: i, queue_family: f });
                    best_rank = rank;
                }
            }
        }
        i = i + 1;
    }
    best
}

/// Whichever devices are enumerated, when one of the qualifying devices is a
/// discrete GPU, the selected device is a discrete GPU.
pub proof fn lemma_discrete_preferred(cands: Seq<DeviceCandidate>, i: int, d: int)
    requires
        is_selected(cands, i),
        0 <= d < cands.len(),
        is_eligible(cands[d]),
        cands[d].kind == DeviceKind::DiscreteGpu,
    ensures
        cands[i].kind == DeviceKind::DiscreteGpu,
{
    assert(kind_rank(cands[i].kind) <= kind_rank(cands[d].kind));
}

/// The selection is deterministic: over a fixed enumeration at most one
/// device is the selected one.
pub proof fn lemma_selection_unique(cands: Seq<DeviceCandidate>, i: int, k: int)
    requires
        is_selected(cands, i),
        is_selected(cands, k),
    ensures
        i == k,
{
    if i < k {
        assert(kind_rank(cands[k].kind) < kind_rank(cands[i].kind));
    } else if k < i {
        assert(kind_rank(cands[i].kind) < kind_rank(cands[k].kind));
    }
}

} // verus!
