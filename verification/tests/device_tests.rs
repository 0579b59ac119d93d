use grapheme::device::{
    evaluate_device, find_graphics_family, find_present_family, first_missing_name,
    name_available, pick_device, unique_queue_families, DeviceInfo, QueueFamilyInfo,
    QUEUE_GRAPHICS,
};
use grapheme::surface::QueueFamilies;

fn names(list: &[&str]) -> Vec<String> {
    list.iter().map(|name| String::from(*name)).collect()
}

fn family(queue_count: u32, queue_flags: u32, present_support: bool) -> QueueFamilyInfo {
    QueueFamilyInfo { queue_count, queue_flags, present_support }
}

fn device(
    extensions: &[&str],
    formats: usize,
    modes: usize,
    families: Vec<QueueFamilyInfo>,
) -> DeviceInfo {
    DeviceInfo {
        extensions: names(extensions),
        surface_format_count: formats,
        present_mode_count: modes,
        queue_families: families,
    }
}

#[test]
fn graphics_bit_agrees_with_ash() {
    assert_eq!(QUEUE_GRAPHICS, ash::vk::QueueFlags::GRAPHICS.as_raw());
}

#[test]
fn names_are_found_by_equality() {
    let available = names(&["VK_KHR_swapchain", "VK_KHR_maintenance1"]);
    assert!(name_available(&available, &String::from("VK_KHR_swapchain")));
    assert!(name_available(&available, &String::from("VK_KHR_maintenance1")));
    assert!(!name_available(&available, &String::from("VK_KHR_swapchai")));
    assert!(!name_available(&available, &String::from("")));
    assert!(!name_available(&vec![], &String::from("VK_KHR_swapchain")));
}

#[test]
fn the_first_missing_name_is_reported() {
    let available = names(&["a", "b", "c"]);
    assert_eq!(first_missing_name(&available, &names(&["a", "c"])), None);
    assert_eq!(first_missing_name(&available, &names(&[])), None);
    assert_eq!(first_missing_name(&available, &names(&["a", "x", "y"])), Some(1));
    assert_eq!(first_missing_name(&available, &names(&["z"])), Some(0));
    assert_eq!(first_missing_name(&vec![], &names(&["a"])), Some(0));
}

#[test]
fn the_first_family_of_each_kind_is_found() {
    let families = vec![
        family(0, 1, true),
        family(2, 2, false),
        family(1, 3, false),
        family(1, 1, true),
    ];
    assert_eq!(find_graphics_family(&families), Some(2));
    assert_eq!(find_present_family(&families), Some(3));
    assert_eq!(find_graphics_family(&vec![family(1, 2, true)]), None);
    assert_eq!(find_present_family(&vec![family(1, 1, false)]), None);
    assert_eq!(find_graphics_family(&vec![]), None);
    assert_eq!(find_present_family(&vec![]), None);
}

#[test]
fn a_device_is_eligible_with_everything_in_place() {
    let required = names(&["VK_KHR_swapchain"]);
    let good = device(&["VK_KHR_swapchain"], 1, 1, vec![family(1, 1, true)]);
    assert_eq!(evaluate_device(&good, &required), Some(QueueFamilies { graphics: 0, present: 0 }));
    let split = device(&["x", "VK_KHR_swapchain"], 2, 3, vec![family(1, 1, false), family(1, 4, true)]);
    assert_eq!(evaluate_device(&split, &required), Some(QueueFamilies { graphics: 0, present: 1 }));
}

#[test]
fn a_device_is_not_eligible_when_anything_lacks() {
    let required = names(&["VK_KHR_swapchain"]);
    let families = vec![family(1, 1, true)];
    assert_eq!(evaluate_device(&device(&[], 1, 1, families.clone()), &required), None);
    assert_eq!(
        evaluate_device(&device(&["VK_KHR_swapchain"], 0, 1, families.clone()), &required),
        None
    );
    assert_eq!(
        evaluate_device(&device(&["VK_KHR_swapchain"], 1, 0, families.clone()), &required),
        None
    );
    assert_eq!(
        evaluate_device(&device(&["VK_KHR_swapchain"], 1, 1, vec![family(1, 2, true)]), &required),
        None
    );
    assert_eq!(
        evaluate_device(&device(&["VK_KHR_swapchain"], 1, 1, vec![family(1, 1, false)]), &required),
        None
    );
}

#[test]
fn the_first_eligible_device_is_picked() {
    let required = names(&["VK_KHR_swapchain"]);
    let devices = vec![
        device(&[], 1, 1, vec![family(1, 1, true)]),
        device(&["VK_KHR_swapchain"], 1, 1, vec![family(1, 2, true), family(1, 1, false)]),
        device(&["VK_KHR_swapchain"], 1, 1, vec![family(1, 1, true)]),
    ];
    assert_eq!(pick_device(&devices, &required), Some((1, QueueFamilies { graphics: 1, present: 0 })));
    let none_eligible = vec![
        device(&[], 1, 1, vec![family(1, 1, true)]),
        device(&["VK_KHR_swapchain"], 0, 1, vec![family(1, 1, true)]),
    ];
    assert_eq!(pick_device(&none_eligible, &required), None);
    assert_eq!(pick_device(&vec![], &required), None);
}

#[test]
fn each_queue_family_is_listed_once() {
    assert_eq!(unique_queue_families(QueueFamilies { graphics: 0, present: 0 }), vec![0]);
    assert_eq!(unique_queue_families(QueueFamilies { graphics: 2, present: 1 }), vec![2, 1]);
}
