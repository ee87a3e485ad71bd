//! Physical adapter selection: given what the instance enumeration reports
//! about each adapter, pick the one to create the logical device on, and
//! the queue family to drive it with. The enumeration itself is the
//! graphics API's; the decision over its plain results is taken here.

use vstd::prelude::*;

verus! {

/// The adapter classes the scoring distinguishes; `Unknown` stands for any
/// class a later API revision may add.
#[derive(Clone, Copy, PartialEq, Eq, Structural, Debug)]
pub enum AdapterKind {
    DiscreteGpu,
    IntegratedGpu,
    VirtualGpu,
    Cpu,
    Other,
    Unknown,
}

/// Preference score of an adapter class; lower is better.
pub open spec fn spec_adapter_score(kind: AdapterKind) -> u32 {
    match kind {
        AdapterKind::DiscreteGpu => 0,
        AdapterKind::IntegratedGpu => 1,
        AdapterKind::VirtualGpu => 2,
        AdapterKind::Cpu => 3,
        AdapterKind::Other => 4,
        AdapterKind::Unknown => 5,
    }
}

pub fn adapter_score(kind: AdapterKind) -> (r: u32)
    ensures
        r == spec_adapter_score(kind),
{
    match kind {
        AdapterKind::DiscreteGpu => 0,
        AdapterKind::IntegratedGpu => 1,
        AdapterKind::VirtualGpu => 2,
        AdapterKind::Cpu => 3,
        AdapterKind::Other => 4,
        AdapterKind::Unknown => 5,
    }
}

/// What one queue family of an adapter offers.
#[derive(Clone, Copy, PartialEq, Eq, Structural, Debug)]
pub struct QueueFamily {
    /// The family accepts graphics work.
    pub graphics: bool,
    /// The family can present to the target surface.
    pub surface_support: bool,
}

impl QueueFamily {
    /// A usable family drives graphics work and presents to the surface.
    pub open spec fn spec_usable(self) -> bool {
        self.graphics && self.surface_support
    }
}

/// What the enumeration reports about one physical adapter.
#[derive(Debug)]
pub struct AdapterInfo {
    pub kind: AdapterKind,
    /// The adapter implements API revision 1.3 or later, where dynamic
    /// rendering is core.
    pub api_1_3: bool,
    /// The adapter offers the dynamic-rendering extension.
    pub dynamic_rendering_extension: bool,
    /// The adapter offers every extension the device will enable (the
    /// swapchain extension).
    pub required_extensions: bool,
    pub queue_families: Vec<QueueFamily>,
}

impl AdapterInfo {
    /// An eligible adapter can render dynamically (natively or by
    /// extension), has the required extensions, and offers a usable queue
    /// family.
    pub open spec fn spec_eligible(self) -> bool {
        &&& self.api_1_3 || self.dynamic_rendering_extension
        &&& self.required_extensions
        &&& exists|i: int|
            0 <= i < self.queue_families@.len() && (#[trigger] self.queue_families@[i]).spec_usable()
    }

    /// The queue family index the selection settles on: the first usable
    /// one.
    pub fn first_usable_family(&self) -> (r: Option<usize>)
        ensures
            r is Some <==> exists|i: int|
                0 <= i < self.queue_families@.len() && (
                #[trigger] self.queue_families@[i]).spec_usable(),
            (r matches Some(k) ==> k < self.queue_families@.len()
                && self.queue_families@[k as int].spec_usable() && forall|j: int|
                0 <= j < k ==> !(#[trigger] self.queue_families@[j]).spec_usable()),
    {
        let mut i: usize = 0;
        while i < self.queue_families.len()
            invariant
                i <= self.queue_families@.len(),
                forall|j: int| 0 <= j < i ==> !(#[trigger] self.queue_families@[j]).spec_usable(),
            decreases self.queue_families@.len() - i,
        {
            let fam = self.queue_families[i];
            if fam.graphics && fam.surface_support {
                return Some(i);
            }
            i = i + 1;
        }
        None
    }

    /// Dynamic rendering must be enabled as an extension exactly when the
    /// adapter predates API revision 1.3, where it became core.
    pub fn needs_dynamic_rendering_extension(&self) -> (r: bool)
        ensures
            r == !self.api_1_3,
    {
        !self.api_1_3
    }
}

/// The selected adapter and the queue family to use on it.
#[derive(Clone, Copy, PartialEq, Eq, Structural, Debug)]
pub struct AdapterChoice {
    pub adapter_index: usize,
    pub queue_family_index: usize,
}

/// Pick the adapter to build the device on: among the eligible adapters,
/// the first one of minimal score, with its first usable queue family.
/// `None` exactly when no adapter is eligible.
pub fn select_adapter(adapters: &Vec<AdapterInfo>) -> (r: Option<AdapterChoice>)
    ensures
        r is Some <==> exists|i: int|
            0 <= i < adapters@.len() && (#[trigger] adapters@[i]).spec_eligible(),
        (r matches Some(c) ==> {
            &&& c.adapter_index < adapters@.len()
            &&& adapters@[c.adapter_index as int].spec_eligible()
            &&& c.queue_family_index < adapters@[c.adapter_index as int].queue_families@.len()
            &&& adapters@[c.adapter_index as int].queue_families@[c.queue_family_index as int].spec_usable()
            &&& forall|j: int|
                0 <= j < c.queue_family_index
                    ==> !(#[trigger] adapters@[c.adapter_index as int].queue_families@[j]).spec_usable()
            &&& forall|j: int|
                0 <= j < adapters@.len() && (#[trigger] adapters@[j]).spec_eligible()
                    ==> spec_adapter_score(adapters@[c.adapter_index as int].kind)
                    <= spec_adapter_score(adapters@[j].kind)
            &&& forall|j: int|
                0 <= j < c.adapter_index && (#[trigger] adapters@[j]).spec_eligible()
                    ==> spec_adapter_score(adapters@[c.adapter_index as int].kind)
                    < spec_adapter_score(adapters@[j].kind)
        }),
{
    let mut best: Option<AdapterChoice> = None;
    let ghost mut best_score: u32 = 0;
    let mut i: usize = 0;
    while i < adapters.len()
        invariant
            i <= adapters@.len(),
            best is None ==> forall|j: int|
                0 <= j < i ==> !(#[trigger] adapters@[j]).spec_eligible(),
            (best matches Some(c) ==> {
                &&& c.adapter_index < i
                &&& adapters@[c.adapter_index as int].spec_eligible()
                &&& best_score == spec_adapter_score(adapters@[c.adapter_index as int].kind)
                &&& c.queue_family_index < adapters@[c.adapter_index as int].queue_families@.len()
                &&& adapters@[c.adapter_index as int].queue_families@[c.queue_family_index as int].spec_usable()
                &&& forall|j: int|
                    0 <= j < c.queue_family_index
                        ==> !(#[trigger] adapters@[c.adapter_index as int].queue_families@[j]).spec_usable()
                &&& forall|j: int|
                    0 <= j < i && (#[trigger] adapters@[j]).spec_eligible() ==> best_score
                        <= spec_adapter_score(adapters@[j].kind)
                &&& forall|j: int|
                    0 <= j < c.adapter_index && (#[trigger] adapters@[j]).spec_eligible()
                        ==> best_score < spec_adapter_score(adapters@[j].kind)
            }),
        decreases adapters@.len() - i,
    {
        let a = &adapters[i];
        if (a.api_1_3 || a.dynamic_rendering_extension) && a.required_extensions {
            match a.first_usable_family() {
                Some(fam) => {
                    let score = adapter_score(a.kind);
                    let better = match &best {
                        None => true,
                        Some(_) => score < adapter_score(adapters[best_index(&best)].kind),
                    };
                    if better {
                        best = Some(AdapterChoice { adapter_index: i, queue_family_index: fam });
                        proof {
                            best_score = score;
                        }
                    }
                },
                None => {},
            }
        }
        i = i + 1;
    }
    best
}

/// The adapter index inside a selection known to exist.
fn best_index(best: &Option<AdapterChoice>) -> (r: usize)
    requires
        best is Some,
    ensures
        r == best.unwrap().adapter_index,
{
    match best {
        Some(c) => c.adapter_index,
        None => 0,
    }
}

} // verus!
