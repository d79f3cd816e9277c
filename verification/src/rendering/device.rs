//! Startup decisions of the graphics device: which physical device is
//! picked, which queue families serve graphics and presentation, and
//! which layers and extensions are requested.

use vstd::prelude::*;
use crate::rendering::swapchain::PresentMode;
use crate::rendering::swapchain::SurfaceFormat;

verus! {

/// The validation layer attached when diagnostics are enabled.
pub const VALIDATION_LAYER: &'static str = "VK_LAYER_LUNARG_standard_validation";

/// The instance extension carrying the diagnostics callback.
pub const DEBUG_INSTANCE_EXTENSION: &'static str = "VK_EXT_debug_utils";

/// The device extension every candidate must support to present.
pub const SWAPCHAIN_DEVICE_EXTENSION: &'static str = "VK_KHR_swapchain";

/// What one queue family of a candidate device supports.
#[derive(Clone, Copy, PartialEq, Eq, Structural, Debug)]
pub struct QueueFamily {
    pub supports_graphics: bool,
    pub supports_present: bool,
}

/// What a candidate physical device reports, reduced to the facts the
/// selection reads.
pub struct DeviceCandidate {
    /// Whether the mandatory presentation-chain extension is there.
    pub has_swapchain_extension: bool,
    pub surface_formats: Vec<SurfaceFormat>,
    pub surface_present_modes: Vec<PresentMode>,
    pub queue_families: Vec<QueueFamily>,
}

/// Whether some family of the list supports graphics work.
pub open spec fn spec_has_graphics(families: Seq<QueueFamily>) -> bool {
    exists|k: int| 0 <= k < families.len() && families[k].supports_graphics
}

/// Whether some family of the list can present to the surface.
pub open spec fn spec_has_present(families: Seq<QueueFamily>) -> bool {
    exists|k: int| 0 <= k < families.len() && families[k].supports_present
}

/// A candidate qualifies when it has the presentation-chain extension,
/// reports at least one surface format and one present mode, and has
/// a graphics-capable and a present-capable queue family.
pub open spec fn spec_suitable(c: DeviceCandidate) -> bool {
    &&& c.has_swapchain_extension
    &&& c.surface_formats@.len() > 0
    &&& c.surface_present_modes@.len() > 0
    &&& spec_has_graphics(c.queue_families@)
    &&& spec_has_present(c.queue_families@)
}

/// The first queue family of the list that supports graphics work.
pub fn find_graphics_family(families: &Vec<QueueFamily>) -> (found: Option<u32>)
    requires
        families@.len() <= u32::MAX,
    ensures
        match found {
            Some(g) => g < families@.len() && families@[g as int].supports_graphics && forall|
                k: int,
            | 0 <= k < g ==> !families@[k].supports_graphics,
            None => !spec_has_graphics(families@),
        },
{
    let n = families.len();
    for i in 0..n
        invariant
            n == families@.len() <= u32::MAX,
            forall|k: int| 0 <= k < i ==> !families@[k].supports_graphics,
    {
        if families[i].supports_graphics {
            return Some(i as u32);
        }
    }
    None
}

/// The first queue family of the list that can present to the surface.
pub fn find_present_family(families: &Vec<QueueFamily>) -> (found: Option<u32>)
    requires
        families@.len() <= u32::MAX,
    ensures
        match found {
            Some(p) => p < families@.len() && families@[p as int].supports_present && forall|
                k: int,
            | 0 <= k < p ==> !families@[k].supports_present,
            None => !spec_has_present(families@),
        },
{
    let n = families.len();
    for i in 0..n
        invariant
            n == families@.len() <= u32::MAX,
            forall|k: int| 0 <= k < i ==> !families@[k].supports_present,
    {
        if families[i].supports_present {
            return Some(i as u32);
        }
    }
    None
}

/// First-fit physical-device selection over the enumeration order: the
/// first candidate that qualifies wins, with the first
/// graphics-capable and the first present-capable family indices of
/// that candidate; nothing is selected exactly when no candidate
/// qualifies.
pub fn select_physical_device(candidates: &Vec<DeviceCandidate>) -> (selected: Option<
    (usize, u32, u32),
>)
    requires
        forall|j: int| 0 <= j < candidates@.len() ==> (#[trigger] candidates@[j]).queue_families@
            .len() <= u32::MAX,
    ensures
        match selected {
            Some(choice) => {
                &&& choice.0 < candidates@.len()
                &&& spec_suitable(candidates@[choice.0 as int])
                &&& forall|j: int| 0 <= j < choice.0 ==> !spec_suitable(#[trigger] candidates@[j])
                &&& choice.1 < candidates@[choice.0 as int].queue_families@.len()
                &&& candidates@[choice.0 as int].queue_families@[choice.1 as int].supports_graphics
                &&& forall|k: int| 0 <= k < choice.1 ==> !candidates@[choice.0 as int]
                    .queue_families@[k].supports_graphics
                &&& choice.2 < candidates@[choice.0 as int].queue_families@.len()
                &&& candidates@[choice.0 as int].queue_families@[choice.2 as int].supports_present
                &&& forall|k: int| 0 <= k < choice.2 ==> !candidates@[choice.0 as int]
                    .queue_families@[k].supports_present
            },
            None => forall|j: int| 0 <= j < candidates@.len() ==> !spec_suitable(
                #[trigger] candidates@[j],
            ),
        },
{
    let n = candidates.len();
    for i in 0..n
        invariant
            n == candidates@.len(),
            forall|j: int| 0 <= j < candidates@.len() ==> (#[trigger] candidates@[j])
                .queue_families@.len() <= u32::MAX,
            forall|j: int| 0 <= j < i ==> !spec_suitable(#[trigger] candidates@[j]),
    {
        let candidate = &candidates[i];
        if candidate.has_swapchain_extension && candidate.surface_formats.len() > 0
            && candidate.surface_present_modes.len() > 0 {
            let graphics = find_graphics_family(&candidate.queue_families);
            let present = find_present_family(&candidate.queue_families);
            match (graphics, present) {
                (Some(g), Some(p)) => {
                    return Some((i, g, p));
                },
                _ => {},
            }
        }
    }
    None
}

/// One queue-create request per unique qualifying family: just the
/// shared family when graphics and present coincide, otherwise both
/// in ascending order.
pub fn unique_queue_families(graphics_family: u32, present_family: u32) -> (families: Vec<u32>)
    ensures
        graphics_family == present_family ==> families@ =~= seq![graphics_family],
        graphics_family != present_family ==> families@ =~= seq![
            (if graphics_family < present_family {
                graphics_family
            } else {
                present_family
            }),
            (if graphics_family < present_family {
                present_family
            } else {
                graphics_family
            }),
        ],
{
    let mut families: Vec<u32> = Vec::new();
    if graphics_family == present_family {
        families.push(graphics_family);
    } else if graphics_family < present_family {
        families.push(graphics_family);
        families.push(present_family);
    } else {
        families.push(present_family);
        families.push(graphics_family);
    }
    families
}

/// The instance layers requested at startup: just the validation
/// layer, and only when diagnostics are enabled.
pub fn instance_layer_names(validation: bool) -> (layers: Vec<&'static str>)
    ensures
        validation ==> layers@.len() == 1 && layers@[0]@ == VALIDATION_LAYER@,
        !validation ==> layers@.len() == 0,
{
    let mut layers: Vec<&'static str> = Vec::new();
    if validation {
        layers.push(VALIDATION_LAYER);
    }
    layers
}

/// The extra instance extensions requested at startup, beyond the
/// platform's surface extensions: the diagnostics extension, and only
/// when diagnostics are enabled.
pub fn instance_extension_names(validation: bool) -> (extensions: Vec<&'static str>)
    ensures
        validation ==> extensions@.len() == 1 && extensions@[0]@ == DEBUG_INSTANCE_EXTENSION@,
        !validation ==> extensions@.len() == 0,
{
    let mut extensions: Vec<&'static str> = Vec::new();
    if validation {
        extensions.push(DEBUG_INSTANCE_EXTENSION);
    }
    extensions
}

/// The device extensions every created device requests: the
/// presentation-chain extension alone.
pub fn device_extension_names() -> (extensions: Vec<&'static str>)
    ensures
        extensions@.len() == 1 && extensions@[0]@ == SWAPCHAIN_DEVICE_EXTENSION@,
{
    let mut extensions: Vec<&'static str> = Vec::new();
    extensions.push(SWAPCHAIN_DEVICE_EXTENSION);
    extensions
}

} // verus!
