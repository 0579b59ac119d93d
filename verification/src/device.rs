//! Choosing the physical device and its queue families.

use vstd::prelude::*;
use ash::vk;
use crate::buffer::{contains_flags, flags_contain};
use crate::surface::QueueFamilies;

verus! {

/// `VK_QUEUE_GRAPHICS_BIT`.
pub const QUEUE_GRAPHICS: u32 = 0x1;

/// The queues of the logical device: the one that takes the drawing commands
/// and the one that presents, with the families they belong to. The two may
/// be one and the same queue.
#[derive(Clone, Copy, Debug, PartialEq, Eq)]
pub struct Gpu {
    pub families: QueueFamilies,
    pub graphics_queue: vk::Queue,
    pub present_queue: vk::Queue,
}

/// What the selection reads of a queue family.
#[derive(Clone, Copy, Debug, PartialEq, Eq, Structural)]
pub struct QueueFamilyInfo {
    pub queue_count: u32,
    pub queue_flags: u32,
    /// Whether queues of the family can present to the surface.
    pub present_support: bool,
}

/// What the selection reads of a physical device.
pub struct DeviceInfo {
    /// Names of the extensions that the device offers.
    pub extensions: Vec<String>,
    /// Number of formats that the device supports for the surface.
    pub surface_format_count: usize,
    /// Number of present modes that the device supports for the surface.
    pub present_mode_count: usize,
    pub queue_families: Vec<QueueFamilyInfo>,
}

/// Whether `name` is among `available`.
pub open spec fn has_name(available: Seq<String>, name: Seq<char>) -> bool {
    exists|j: int| 0 <= j < available.len() && (#[trigger] available[j])@ == name
}

/// Whether every name of `required` is among `available`.
pub open spec fn has_all_names(available: Seq<String>, required: Seq<String>) -> bool {
    forall|i: int| 0 <= i < required.len() ==> has_name(available, (#[trigger] required[i])@)
}

/// Whether the family has a queue that takes graphics commands.
pub open spec fn is_graphics_family(family: QueueFamilyInfo) -> bool {
    family.queue_count > 0 && contains_flags(family.queue_flags, QUEUE_GRAPHICS)
}

/// Whether the family has a queue that can present to the surface.
pub open spec fn is_present_family(family: QueueFamilyInfo) -> bool {
    family.queue_count > 0 && family.present_support
}

/// `found` is the first family for graphics, or none if there is none.
pub open spec fn first_graphics_family(families: Seq<QueueFamilyInfo>, found: Option<u32>) -> bool {
    match found {
        Some(index) => {
            &&& index < families.len()
            &&& is_graphics_family(families[index as int])
            &&& forall|j: int| 0 <= j < index ==> !is_graphics_family(#[trigger] families[j])
        },
        None => forall|j: int|
            0 <= j < families.len() ==> !is_graphics_family(#[trigger] families[j]),
    }
}

/// `found` is the first family for presenting, or none if there is none.
pub open spec fn first_present_family(families: Seq<QueueFamilyInfo>, found: Option<u32>) -> bool {
    match found {
        Some(index) => {
            &&& index < families.len()
            &&& is_present_family(families[index as int])
            &&& forall|j: int| 0 <= j < index ==> !is_present_family(#[trigger] families[j])
        },
        None => forall|j: int|
            0 <= j < families.len() ==> !is_present_family(#[trigger] families[j]),
    }
}

/// `found` holds the first family for graphics and the first for presenting
/// when the device is eligible: it offers every required extension, at least
/// one surface format and one present mode, and has both families. It is
/// none when the device is not eligible.
pub open spec fn eligible_with(
    device: &DeviceInfo,
    required: Seq<String>,
    found: Option<QueueFamilies>,
) -> bool {
    match found {
        Some(queues) => {
            &&& has_all_names(device.extensions@, required)
            &&& device.surface_format_count > 0
            &&& device.present_mode_count > 0
            &&& first_graphics_family(device.queue_families@, Some(queues.graphics))
            &&& first_present_family(device.queue_families@, Some(queues.present))
        },
        None => {
            ||| !has_all_names(device.extensions@, required)
            ||| device.surface_format_count == 0
            ||| device.present_mode_count == 0
            ||| first_graphics_family(device.queue_families@, None)
            ||| first_present_family(device.queue_families@, None)
        },
    }
}

/// Whether `name` is among `available`.
pub fn name_available(available: &Vec<String>, name: &String) -> (found: bool)
    ensures
        found == has_name(available@, name@),
{
    let mut j: usize = 0;
    while j < available.len()
        invariant
            j <= available@.len(),
            forall|k: int| 0 <= k < j ==> (#[trigger] available@[k])@ != name@,
        decreases available@.len() - j,
    {
        if available[j] == *name {
            return true;
        }
        j = j + 1;
    }
    false
}

/// The first name of `required` that is not among `available`, by its index;
/// none when all are there.
pub fn first_missing_name(available: &Vec<String>, required: &Vec<String>) -> (missing: Option<
    usize,
>)
    ensures
        missing is None <==> has_all_names(available@, required@),
        missing matches Some(i) ==> {
            &&& i < required@.len()
            &&& !has_name(available@, required@[i as int]@)
            &&& forall|k: int| 0 <= k < i ==> has_name(available@, (#[trigger] required@[k])@)
        },
{
    let mut i: usize = 0;
    while i < required.len()
        invariant
            i <= required@.len(),
            forall|k: int| 0 <= k < i ==> has_name(available@, (#[trigger] required@[k])@),
        decreases required@.len() - i,
    {
        if !name_available(available, &required[i]) {
            return Some(i);
        }
        i = i + 1;
    }
    None
}

/// The first queue family that has a queue for graphics commands.
pub fn find_graphics_family(families: &Vec<QueueFamilyInfo>) -> (found: Option<u32>)
    requires
        families@.len() <= u32::MAX,
    ensures
        first_graphics_family(families@, found),
{
    let mut i: u32 = 0;
    while (i as usize) < families.len()
        invariant
            i <= families@.len() <= u32::MAX,
            forall|j: int| 0 <= j < i ==> !is_graphics_family(#[trigger] families@[j]),
        decreases families@.len() - i,
    {
        let family = families[i as usize];
        if family.queue_count > 0 && flags_contain(family.queue_flags, QUEUE_GRAPHICS) {
            return Some(i);
        }
        i = i + 1;
    }
    None
}

/// The first queue family that has a queue able to present to the surface.
pub fn find_present_family(families: &Vec<QueueFamilyInfo>) -> (found: Option<u32>)
    requires
        families@.len() <= u32::MAX,
    ensures
        first_present_family(families@, found),
{
    let mut i: u32 = 0;
    while (i as usize) < families.len()
        invariant
            i <= families@.len() <= u32::MAX,
            forall|j: int| 0 <= j < i ==> !is_present_family(#[trigger] families@[j]),
        decreases families@.len() - i,
    {
        let family = families[i as usize];
        if family.queue_count > 0 && family.present_support {
            return Some(i);
        }
        i = i + 1;
    }
    None
}

/// Decides whether a device is eligible, and with which queue families.
pub fn evaluate_device(device: &DeviceInfo, required_extensions: &Vec<String>) -> (found: Option<
    QueueFamilies,
>)
    requires
        device.queue_families@.len() <= u32::MAX,
    ensures
        eligible_with(device, required_extensions@, found),
{
    if first_missing_name(&device.extensions, required_extensions).is_some() {
        return None;
    }
    if device.surface_format_count == 0 || device.present_mode_count == 0 {
        return None;
    }
    let graphics = find_graphics_family(&device.queue_families);
    let present = find_present_family(&device.queue_families);
    match (graphics, present) {
        (Some(graphics), Some(present)) => Some(QueueFamilies { graphics, present }),
        _ => None,
    }
}

/// Picks the first eligible device, by its index, with its queue families.
pub fn pick_device(devices: &Vec<DeviceInfo>, required_extensions: &Vec<String>) -> (picked:
    Option<(usize, QueueFamilies)>)
    requires
        forall|i: int|
            0 <= i < devices@.len() ==> (#[trigger] devices@[i]).queue_families@.len() <= u32::MAX,
    ensures
        picked matches Some(pick) ==> {
            &&& pick.0 < devices@.len()
            &&& eligible_with(&devices@[pick.0 as int], required_extensions@, Some(pick.1))
            &&& forall|j: int|
                0 <= j < pick.0 ==> eligible_with(
                    &#[trigger] devices@[j],
                    required_extensions@,
                    None,
                )
        },
        picked is None ==> forall|j: int|
            0 <= j < devices@.len() ==> eligible_with(
                &#[trigger] devices@[j],
                required_extensions@,
                None,
            ),
{
    let mut i: usize = 0;
    while i < devices.len()
        invariant
            i <= devices@.len(),
            forall|k: int|
                0 <= k < devices@.len() ==> (#[trigger] devices@[k]).queue_families@.len()
                    <= u32::MAX,
            forall|j: int|
                0 <= j < i ==> eligible_with(&#[trigger] devices@[j], required_extensions@, None),
        decreases devices@.len() - i,
    {
        match evaluate_device(&devices[i], required_extensions) {
            Some(queues) => {
                return Some((i, queues));
            },
            None => {},
        }
        i = i + 1;
    }
    None
}

/// The queue families to create queues for: each family once, the graphics
/// family first.
pub fn unique_queue_families(queues: QueueFamilies) -> (families: Vec<u32>)
    ensures
        queues.graphics == queues.present ==> families@ == seq![queues.graphics],
        queues.graphics != queues.present ==> families@ == seq![queues.graphics, queues.present],
{
    let mut families: Vec<u32> = Vec::new();
    families.push(queues.graphics);
    if queues.present != queues.graphics {
        families.push(queues.present);
    }
    families
}

/// A device is found eligible or not, never both: the two outcomes of an
/// evaluation exclude each other.
pub proof fn lemma_eligibility_is_decided(
    device: &DeviceInfo,
    required: Seq<String>,
    queues: QueueFamilies,
)
    requires
        eligible_with(device, required, Some(queues)),
    ensures
        !eligible_with(device, required, None),
{
    assert(is_graphics_family(device.queue_families@[queues.graphics as int]));
    assert(is_present_family(device.queue_families@[queues.present as int]));
}

} // verus!
