use particle_field::device::{
    check_device_extension_support, check_device_feature_support, is_device_suitable,
    pick_physical_device, required_device_extensions, required_device_features, DeviceError,
    DeviceExtensions, DeviceFeatures, PhysicalDeviceProfile,
};
use particle_field::queue_family_indices::{
    QueueFamilyCaps, QueueFamilyError, QueueFamilyIndices,
};

fn fam(g: bool, p: bool, c: bool) -> QueueFamilyCaps {
    QueueFamilyCaps { supports_graphics: g, supports_present: p, supports_compute: c }
}

fn good_profile() -> PhysicalDeviceProfile {
    PhysicalDeviceProfile {
        queue_families: vec![fam(true, true, true)],
        extensions: DeviceExtensions { khr_swapchain: true },
        features: DeviceFeatures { large_points: true },
        surface_format_count: 2,
        has_present_mode: true,
    }
}

#[test]
fn find_takes_the_last_supporting_family_before_completion() {
    // family 0 has graphics and compute, family 1 presents: the scan ends
    // at family 1, which also overwrote nothing else
    let fams = vec![fam(true, false, true), fam(false, true, false)];
    let ind = QueueFamilyIndices::find(&fams).unwrap();
    assert_eq!(ind.graphics_family, 0);
    assert_eq!(ind.present_family, 1);
    assert_eq!(ind.compute_family, 0);
}

#[test]
fn find_stops_as_soon_as_every_role_is_filled() {
    // family 0 supports everything, so family 1 is never reached
    let fams = vec![fam(true, true, true), fam(true, true, true)];
    let ind = QueueFamilyIndices::find(&fams).unwrap();
    assert_eq!((ind.graphics_family, ind.present_family, ind.compute_family), (0, 0, 0));
}

#[test]
fn find_overwrites_with_later_families_until_complete() {
    // presentation appears only at family 2, so graphics and compute picks
    // advance to the last supporting family seen on the way
    let fams = vec![fam(true, false, true), fam(true, false, true), fam(false, true, false)];
    let ind = QueueFamilyIndices::find(&fams).unwrap();
    assert_eq!(ind.graphics_family, 1);
    assert_eq!(ind.present_family, 2);
    assert_eq!(ind.compute_family, 1);
}

#[test]
fn find_fails_when_a_role_has_no_family() {
    let fams = vec![fam(true, true, false)];
    assert_eq!(QueueFamilyIndices::find(&fams), Err(QueueFamilyError::IncompleteFamilies));
    let none: Vec<QueueFamilyCaps> = Vec::new();
    assert_eq!(QueueFamilyIndices::find(&none), Err(QueueFamilyError::IncompleteFamilies));
}

#[test]
fn unique_indices_lists_each_family_once_in_order() {
    let ind = QueueFamilyIndices { graphics_family: 2, present_family: 2, compute_family: 2 };
    assert_eq!(ind.unique_indices(), vec![2]);
    let ind2 = QueueFamilyIndices { graphics_family: 0, present_family: 1, compute_family: 0 };
    assert_eq!(ind2.unique_indices(), vec![0, 1]);
    let ind3 = QueueFamilyIndices { graphics_family: 0, present_family: 1, compute_family: 2 };
    assert_eq!(ind3.unique_indices(), vec![0, 1, 2]);
    assert!(ind.is_same_queue());
    assert!(!ind3.is_same_queue());
}

#[test]
fn take_queues_assigns_distinct_queues_in_order() {
    let fams = vec![fam(true, false, true), fam(false, true, false), fam(false, false, true)];
    let ind = QueueFamilyIndices { graphics_family: 0, present_family: 1, compute_family: 2 };
    assert_eq!(ind.take_queues(3, &fams), Ok((0, 1, 2)));
}

#[test]
fn take_queues_shares_the_queue_of_a_shared_family() {
    let fams = vec![fam(true, true, false), fam(false, false, true)];
    let ind = QueueFamilyIndices { graphics_family: 0, present_family: 0, compute_family: 1 };
    assert_eq!(ind.take_queues(2, &fams), Ok((0, 0, 1)));
}

#[test]
fn take_queues_falls_back_to_a_compute_capable_queue() {
    // only one queue was created and the graphics family has compute
    let fams = vec![fam(true, true, true)];
    let ind = QueueFamilyIndices { graphics_family: 0, present_family: 0, compute_family: 0 };
    assert_eq!(ind.take_queues(1, &fams), Ok((0, 0, 0)));
    // two queues, distinct graphics and present, compute only on present
    let fams2 = vec![fam(true, false, false), fam(false, true, true)];
    let ind2 = QueueFamilyIndices { graphics_family: 0, present_family: 1, compute_family: 1 };
    assert_eq!(ind2.take_queues(2, &fams2), Ok((0, 1, 1)));
}

#[test]
fn take_queues_reports_what_is_missing() {
    let fams = vec![fam(true, true, false), fam(false, true, false)];
    let same = QueueFamilyIndices { graphics_family: 0, present_family: 0, compute_family: 0 };
    assert_eq!(same.take_queues(0, &fams), Err(QueueFamilyError::MissingGraphicsQueue));
    let split = QueueFamilyIndices { graphics_family: 0, present_family: 1, compute_family: 0 };
    assert_eq!(split.take_queues(1, &fams), Err(QueueFamilyError::MissingPresentQueue));
    assert_eq!(split.take_queues(2, &fams), Err(QueueFamilyError::MissingComputeQueue));
}

#[test]
fn required_support_is_checked_field_by_field() {
    assert!(required_device_extensions().khr_swapchain);
    assert!(required_device_features().large_points);
    assert!(check_device_extension_support(&DeviceExtensions { khr_swapchain: true }));
    assert!(!check_device_extension_support(&DeviceExtensions { khr_swapchain: false }));
    assert!(check_device_feature_support(&DeviceFeatures { large_points: true }));
    assert!(!check_device_feature_support(&DeviceFeatures { large_points: false }));
}

#[test]
fn suitability_needs_every_capability_at_once() {
    assert!(is_device_suitable(&good_profile()));

    let mut no_ext = good_profile();
    no_ext.extensions.khr_swapchain = false;
    assert!(!is_device_suitable(&no_ext));

    let mut no_fmt = good_profile();
    no_fmt.surface_format_count = 0;
    assert!(!is_device_suitable(&no_fmt));

    let mut no_mode = good_profile();
    no_mode.has_present_mode = false;
    assert!(!is_device_suitable(&no_mode));

    let mut no_points = good_profile();
    no_points.features.large_points = false;
    assert!(!is_device_suitable(&no_points));

    let mut no_compute = good_profile();
    no_compute.queue_families = vec![fam(true, true, false)];
    assert!(!is_device_suitable(&no_compute));
}

#[test]
fn the_first_suitable_device_is_picked() {
    let mut bad = good_profile();
    bad.features.large_points = false;
    let devices = vec![bad, good_profile(), good_profile()];
    assert_eq!(pick_physical_device(&devices), Ok(1));
}

#[test]
fn no_suitable_device_is_an_error() {
    let mut bad = good_profile();
    bad.extensions.khr_swapchain = false;
    let devices = vec![bad];
    assert_eq!(pick_physical_device(&devices), Err(DeviceError::NoSuitableDevice));
}
