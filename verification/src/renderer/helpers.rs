//! Choosing the device to render on.

use vstd::prelude::*;

verus! {

/// What kind of device a physical device is.
#[derive(Clone, Copy, Debug, PartialEq, Eq, Hash)]
pub enum PhysicalDeviceType {
    IntegratedGpu,
    DiscreteGpu,
    VirtualGpu,
    Cpu,
    Other,
}

impl PhysicalDeviceType {
    /// The rank of a kind of device: the lower, the more likely the device
    /// is fast.
    pub open spec fn score_spec(self) -> int {
        match self {
            PhysicalDeviceType::DiscreteGpu => 0,
            PhysicalDeviceType::IntegratedGpu => 1,
            PhysicalDeviceType::VirtualGpu => 2,
            PhysicalDeviceType::Cpu => 3,
            PhysicalDeviceType::Other => 4,
        }
    }

    /// The rank of a kind of device.
    pub fn score(self) -> (score: u8)
        ensures
            score == self.score_spec(),
    {
        match self {
            PhysicalDeviceType::DiscreteGpu => 0,
            PhysicalDeviceType::IntegratedGpu => 1,
            PhysicalDeviceType::VirtualGpu => 2,
            PhysicalDeviceType::Cpu => 3,
            PhysicalDeviceType::Other => 4,
        }
    }
}

/// What is known of one queue family of a device.
#[derive(Clone, Copy, Debug, PartialEq, Eq, Hash)]
pub struct QueueFamily {
    /// Whether the queues of the family take graphics work.
    pub graphics: bool,
    /// Whether the queues of the family can present to the surface.
    pub surface_support: bool,
}

impl QueueFamily {
    /// Whether the renderer can use the family: it draws and presents.
    pub open spec fn usable(self) -> bool {
        self.graphics && self.surface_support
    }
}

/// What is known of one physical device.
#[derive(Clone, Debug, PartialEq, Eq)]
pub struct PhysicalDevice {
    pub device_type: PhysicalDeviceType,
    /// Whether the device has every extension that the renderer needs.
    pub supports_extensions: bool,
    pub queue_families: Vec<QueueFamily>,
}

/// Whether `q` is the first usable queue family among `families`.
pub open spec fn first_usable(families: Seq<QueueFamily>, q: int) -> bool {
    &&& 0 <= q < families.len()
    &&& families[q].usable()
    &&& forall|earlier: int| 0 <= earlier < q ==> !(#[trigger] families[earlier]).usable()
}

/// Whether no queue family among `families` is usable.
pub open spec fn none_usable(families: Seq<QueueFamily>) -> bool {
    forall|q: int| 0 <= q < families.len() ==> !(#[trigger] families[q]).usable()
}

impl PhysicalDevice {
    /// Whether the renderer can run on the device.
    pub open spec fn eligible(&self) -> bool {
        self.supports_extensions && !none_usable(self.queue_families@)
    }

    /// The first queue family that draws and presents, if there is one.
    pub fn queue_family(&self) -> (family: Option<u32>)
        requires
            self.queue_families@.len() <= u32::MAX,
        ensures
            match family {
                Some(q) => first_usable(self.queue_families@, q as int),
                None => none_usable(self.queue_families@),
            },
    {
        let mut q: usize = 0;
        while q < self.queue_families.len()
            invariant
                q <= self.queue_families@.len(),
                self.queue_families@.len() <= u32::MAX,
                forall|earlier: int|
                    0 <= earlier < q ==> !(#[trigger] self.queue_families@[earlier]).usable(),
            decreases self.queue_families@.len() - q,
        {
            if self.queue_families[q].graphics && self.queue_families[q].surface_support {
                return Some(q as u32);
            }
            q = q + 1;
        }
        None
    }
}

/// Whether device `i` is the one to render on: it is eligible, no eligible
/// device has a lower score, and every eligible device before it has a
/// higher one.
pub open spec fn is_selected(devices: Seq<PhysicalDevice>, i: int) -> bool {
    &&& 0 <= i < devices.len()
    &&& devices[i].eligible()
    &&& forall|j: int|
        0 <= j < devices.len() && (#[trigger] devices[j]).eligible()
            ==> devices[i].device_type.score_spec() <= devices[j].device_type.score_spec()
    &&& forall|j: int|
        0 <= j < i && (#[trigger] devices[j]).eligible() ==> devices[i].device_type.score_spec()
            < devices[j].device_type.score_spec()
}

/// Chooses the device to render on and the queue family to use on it.
///
/// Among the devices that have the needed extensions and a queue family
/// that draws and presents, the one with the lowest score is chosen, and
/// the first of them if several have that score. The queue family is the
/// first one of the device that draws and presents. Nothing is chosen if
/// and only if no device is eligible.
pub fn select_physical_device(devices: &Vec<PhysicalDevice>) -> (selected: Option<(usize, u32)>)
    requires
        forall|i: int|
            0 <= i < devices@.len() ==> (#[trigger] devices@[i]).queue_families@.len()
                <= u32::MAX,
    ensures
        match selected {
            Some((i, q)) => {
                &&& is_selected(devices@, i as int)
                &&& first_usable(devices@[i as int].queue_families@, q as int)
            },
            None => forall|i: int| 0 <= i < devices@.len() ==> !(#[trigger] devices@[i]).eligible(),
        },
{
    let mut best: Option<(usize, u32)> = None;
    let mut best_score: u8 = 0;
    let mut i: usize = 0;
    while i < devices.len()
        invariant
            i <= devices@.len(),
            forall|k: int|
                0 <= k < devices@.len() ==> (#[trigger] devices@[k]).queue_families@.len()
                    <= u32::MAX,
            match best {
                Some((b, q)) => {
                    &&& b < i
                    &&& devices@[b as int].eligible()
                    &&& best_score == devices@[b as int].device_type.score_spec()
                    &&& first_usable(devices@[b as int].queue_families@, q as int)
                    &&& forall|j: int|
                        0 <= j < i && (#[trigger] devices@[j]).eligible() ==> best_score
                            <= devices@[j].device_type.score_spec()
                    &&& forall|j: int|
                        0 <= j < b && (#[trigger] devices@[j]).eligible() ==> best_score
                            < devices@[j].device_type.score_spec()
                },
                None => forall|j: int| 0 <= j < i ==> !(#[trigger] devices@[j]).eligible(),
            },
        decreases devices@.len() - i,
    {
        let device = &devices[i];
        if device.supports_extensions {
            match device.queue_family() {
                Some(q) => {
                    let score = device.device_type.score();
                    let better = match best {
                        Some(_) => score < best_score,
                        None => true,
                    };
                    if better {
                        best = Some((i, q));
                        best_score = score;
                    }
                },
                None => {},
            }
        }
        i = i + 1;
    }
    best
}

} // verus!
