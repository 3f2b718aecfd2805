//! Capability selection: the first device that has every required extension
//! and feature, can present to the surface, and has a queue family that
//! does both graphics and presentation.
use vstd::prelude::*;
use crate::errors::VulkanError;
use crate::extensions::DeviceExtensions;
use crate::features::Features;
use crate::memory::{find_memory_type, is_first_fit, memory_type_fits};

verus! {

/// `VK_QUEUE_GRAPHICS_BIT`.
pub const QUEUE_GRAPHICS: u32 = 0x1;

/// What a device reports of one of its queue families.
#[derive(Debug, Clone, Copy, PartialEq, Eq, Structural)]
pub struct QueueFamily {
    pub queue_count: u32,
    pub queue_flags: u32,
    /// The surface-support query confirmed that this family can present to
    /// the surface.
    pub present_support: bool,
}

/// What the engine learned of one physical device.
#[derive(Debug, Clone)]
pub struct DeviceCandidate {
    pub extensions: Vec<DeviceExtensions>,
    pub features: Features,
    pub surface_format_count: usize,
    pub present_mode_count: usize,
    pub queue_families: Vec<QueueFamily>,
    /// The property mask of each memory type, in index order.
    pub memory_types: Vec<u32>,
}

/// What a renderer requires of its device.
#[derive(Debug, Clone)]
pub struct DeviceRequirements {
    pub extensions: Vec<DeviceExtensions>,
    pub features: Features,
}

/// The device chosen, by its position in the enumeration, the queue family
/// used for graphics and presentation, and the device's memory types.
#[derive(Debug, Clone)]
pub struct PhysicalDevice {
    pub index: usize,
    pub queue_family: u32,
    pub memory_types: Vec<u32>,
}

impl PhysicalDevice {
    /// The device's position in the enumeration.
    pub fn get(&self) -> (r: usize)
        ensures
            r == self.index,
    {
        self.index
    }

    /// The queue family used for graphics and presentation.
    pub fn get_queue_family(&self) -> (r: u32)
        ensures
            r == self.queue_family,
    {
        self.queue_family
    }

    /// The first of the device's memory types that `type_filter` allows and
    /// that has every property in `properties` (see `find_memory_type`).
    pub fn find_memory_type(&self, type_filter: u32, properties: u32) -> (r: Option<u32>)
        ensures
            r matches Some(i) ==> is_first_fit(self.memory_types@, i as int, type_filter, properties),
            r is None ==> forall|j: int|
                !memory_type_fits(self.memory_types@, j, type_filter, properties),
    {
        find_memory_type(&self.memory_types, type_filter, properties)
    }
}

pub open spec fn family_usable(f: QueueFamily) -> bool {
    f.queue_count > 0 && f.queue_flags & QUEUE_GRAPHICS != 0 && f.present_support
}

pub open spec fn is_first_usable_family(families: Seq<QueueFamily>, i: int) -> bool {
    &&& 0 <= i < families.len()
    &&& family_usable(families[i])
    &&& forall|j: int| 0 <= j < i ==> !family_usable(families[j])
}

pub open spec fn has_usable_family(families: Seq<QueueFamily>) -> bool {
    exists|i: int| 0 <= i < families.len() && family_usable(families[i])
}

pub open spec fn has_extensions(available: Seq<DeviceExtensions>, required: Seq<DeviceExtensions>) -> bool {
    forall|k: int| 0 <= k < required.len() ==> available.contains(#[trigger] required[k])
}

/// The device meets every requirement and can present to the surface.
pub open spec fn device_suitable(c: DeviceCandidate, req: DeviceRequirements) -> bool {
    &&& has_extensions(c.extensions@, req.extensions@)
    &&& req.features.satisfied_by(c.features)
    &&& c.surface_format_count > 0
    &&& c.present_mode_count > 0
    &&& has_usable_family(c.queue_families@)
}

/// The first queue family with at least one queue that does graphics and
/// was confirmed to present to the surface.
pub fn find_queue_family(families: &Vec<QueueFamily>) -> (r: Option<u32>)
    requires
        families@.len() <= u32::MAX,
    ensures
        r matches Some(i) ==> is_first_usable_family(families@, i as int),
        r is None ==> !has_usable_family(families@),
{
    let mut i: usize = 0;
    while i < families.len()
        invariant
            i <= families@.len() <= u32::MAX,
            forall|j: int| 0 <= j < i ==> !family_usable(families@[j]),
        decreases families@.len() - i,
    {
        let f = families[i];
        if f.queue_count > 0 && f.queue_flags & QUEUE_GRAPHICS != 0 && f.present_support {
            return Some(i as u32);
        }
        i = i + 1;
    }
    None
}

/// Whether every required extension is among the available ones.
pub fn check_device_extensions_support(
    available: &Vec<DeviceExtensions>,
    required: &Vec<DeviceExtensions>,
) -> (r: bool)
    ensures
        r == has_extensions(available@, required@),
{
    let mut k: usize = 0;
    while k < required.len()
        invariant
            k <= required@.len(),
            forall|m: int| 0 <= m < k ==> available@.contains(#[trigger] required@[m]),
        decreases required@.len() - k,
    {
        let wanted = required[k];
        let mut found = false;
        let mut i: usize = 0;
        while i < available.len()
            invariant
                i <= available@.len(),
                found ==> available@.contains(wanted),
                !found ==> forall|j: int| 0 <= j < i ==> available@[j] != wanted,
            decreases available@.len() - i,
        {
            if available[i] == wanted {
                found = true;
            }
            i = i + 1;
        }
        if !found {
            proof {
                assert(!available@.contains(required@[k as int]));
            }
            return false;
        }
        k = k + 1;
    }
    true
}

/// Whether a device meets the requirements and can present to the surface,
/// and the queue family to use when it does.
pub fn check_device(c: &DeviceCandidate, req: &DeviceRequirements) -> (r: Option<u32>)
    requires
        c.queue_families@.len() <= u32::MAX,
    ensures
        r is None <==> !device_suitable(*c, *req),
        r matches Some(q) ==> is_first_usable_family(c.queue_families@, q as int),
{
    let family = find_queue_family(&c.queue_families);
    if check_device_extensions_support(&c.extensions, &req.extensions)
        && req.features.is_supported_by(&c.features) && c.surface_format_count > 0
        && c.present_mode_count > 0 {
        match family {
            Some(q) => Some(q),
            None => None,
        }
    } else {
        None
    }
}

/// Selects the first suitable device in enumeration order (no ranking), with
/// its first usable queue family. Fails with a capability-selection error
/// when no device qualifies.
pub fn select_physical_device(candidates: &Vec<DeviceCandidate>, req: &DeviceRequirements) -> (r: Result<
    PhysicalDevice,
    VulkanError,
>)
    requires
        forall|i: int| 0 <= i < candidates@.len() ==> (#[trigger] candidates@[i]).queue_families@.len() <= u32::MAX,
    ensures
        r matches Ok(d) ==> {
            &&& d.index < candidates@.len()
            &&& device_suitable(candidates@[d.index as int], *req)
            &&& forall|j: int| 0 <= j < d.index ==> !device_suitable(#[trigger] candidates@[j], *req)
            &&& is_first_usable_family(candidates@[d.index as int].queue_families@, d.queue_family as int)
            &&& d.memory_types@ == candidates@[d.index as int].memory_types@
        },
        r is Err ==> (r matches Err(VulkanError::PhysicalDeviceCreationError(_))) && forall|j: int|
            0 <= j < candidates@.len() ==> !device_suitable(#[trigger] candidates@[j], *req),
{
    let mut i: usize = 0;
    while i < candidates.len()
        invariant
            i <= candidates@.len(),
            forall|j: int| 0 <= j < candidates@.len() ==> (#[trigger] candidates@[j]).queue_families@.len() <= u32::MAX,
            forall|j: int| 0 <= j < i ==> !device_suitable(#[trigger] candidates@[j], *req),
        decreases candidates@.len() - i,
    {
        match check_device(&candidates[i], req) {
            Some(q) => {
                let memory_types = candidates[i].memory_types.clone();
                proof {
                    assert(memory_types@ =~= candidates@[i as int].memory_types@);
                }
                return Ok(PhysicalDevice { index: i, queue_family: q, memory_types });
            },
            None => {},
        }
        i = i + 1;
    }
    Err(
        VulkanError::PhysicalDeviceCreationError(
            "cannot find a suitable physical device".to_string(),
        ),
    )
}

} // verus!
