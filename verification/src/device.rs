//! Physical device selection: which device can drive the renderer at all,
//! and which one is taken.

use vstd::prelude::*;

verus! {

use crate::queue_family_indices::{
    QueueFamilyCaps, QueueFamilyIndices, spec_has_graphics, spec_has_present, spec_has_compute,
};

/// The device extensions this renderer cares about.
#[derive(Clone, Copy, Debug, PartialEq, Eq, Structural)]
pub struct DeviceExtensions {
    pub khr_swapchain: bool,
}

/// The device features this renderer cares about.
#[derive(Clone, Copy, Debug, PartialEq, Eq, Structural)]
pub struct DeviceFeatures {
    pub large_points: bool,
}

/// Everything the suitability check reads of one physical device: its queue
/// families, what it supports, and what the surface reports through it.
#[derive(Clone, Debug)]
pub struct PhysicalDeviceProfile {
    pub queue_families: Vec<QueueFamilyCaps>,
    pub extensions: DeviceExtensions,
    pub features: DeviceFeatures,
    pub surface_format_count: usize,
    pub has_present_mode: bool,
}

/// Why no device was taken.
#[derive(Clone, Copy, Debug, PartialEq, Eq, Structural)]
pub enum DeviceError {
    NoSuitableDevice,
}

/// Yield the set of required device extensions.
pub fn required_device_extensions() -> (r: DeviceExtensions)
    ensures
        r == (DeviceExtensions { khr_swapchain: true }),
{
    DeviceExtensions { khr_swapchain: true }
}

/// Check that the device supports all of the required extensions.
pub fn check_device_extension_support(supported: &DeviceExtensions) -> (r: bool)
    ensures
        r == supported.khr_swapchain,
{
    let required: DeviceExtensions = required_device_extensions();
    supported.khr_swapchain && required.khr_swapchain
}

/// Yield the set of required device features.
pub fn required_device_features() -> (r: DeviceFeatures)
    ensures
        r == (DeviceFeatures { large_points: true }),
{
    DeviceFeatures { large_points: true }
}

/// Check that the device supports all of the required features.
pub fn check_device_feature_support(supported: &DeviceFeatures) -> (r: bool)
    ensures
        r == supported.large_points,
{
    let required: DeviceFeatures = required_device_features();
    supported.large_points && required.large_points
}

/// A device suits the renderer when every queue role has a family, the
/// swapchain extension and the large-points feature are supported, and the
/// surface offers at least one format and one presentation mode through it.
pub open spec fn spec_is_device_suitable(d: PhysicalDeviceProfile) -> bool {
    &&& spec_has_graphics(d.queue_families@)
    &&& spec_has_present(d.queue_families@)
    &&& spec_has_compute(d.queue_families@)
    &&& d.extensions.khr_swapchain
    &&& d.surface_format_count > 0
    &&& d.has_present_mode
    &&& d.features.large_points
}

/// Decide whether a device suits the renderer's needs.
pub fn is_device_suitable(device: &PhysicalDeviceProfile) -> (r: bool)
    ensures
        r == spec_is_device_suitable(*device),
{
    let queue_supported: bool = match QueueFamilyIndices::find(&device.queue_families) {
        Result::Ok(_) => true,
        Result::Err(_) => false,
    };
    let extensions_supported: bool = check_device_extension_support(&device.extensions);
    let swap_chain_adequate: bool = if extensions_supported {
        device.surface_format_count > 0 && device.has_present_mode
    } else {
        false
    };
    let features_supported: bool = check_device_feature_support(&device.features);
    queue_supported && extensions_supported && swap_chain_adequate && features_supported
}

/// Take the first suitable physical device: its index when one exists, and
/// an error exactly when none suits.
pub fn pick_physical_device(devices: &Vec<PhysicalDeviceProfile>) -> (r: Result<
    usize,
    DeviceError,
>)
    ensures
        r matches Ok(i) ==> i < devices@.len() && spec_is_device_suitable(devices@[i as int])
            && forall|j: int| 0 <= j < i ==> !spec_is_device_suitable(devices@[j]),
        (r is Err) <==> (forall|j: int|
            0 <= j < devices@.len() ==> !spec_is_device_suitable(devices@[j])),
        r matches Err(e) ==> e == DeviceError::NoSuitableDevice,
{
    let n: usize = devices.len();
    let mut i: usize = 0;
    while i < n
        invariant
            n == devices@.len(),
            0 <= i <= n,
            forall|j: int| 0 <= j < i ==> !spec_is_device_suitable(devices@[j]),
        decreases n - i,
    {
        if is_device_suitable(&devices[i]) {
            return Result::Ok(i);
        }
        i = i + 1;
    }
    Result::Err(DeviceError::NoSuitableDevice)
}

} // verus!
