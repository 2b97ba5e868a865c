use zeus_render::device::{
    check_device_extension_support, find_queue_family, is_physical_device_suitable,
    pick_physical_device, select_queue_family, AdapterSuitability, QueueFamilyDesc,
    QueueFamilyIndices,
};
use zeus_render::input::{InputState, Key};
use zeus_render::time::Stopwatch;

#[test]
fn queue_family_indices_start_unfound() {
    let indices = QueueFamilyIndices::new();
    assert_eq!(indices.graphics_family, -1);
    assert_eq!(indices.present_family, -1);
    assert!(!indices.is_complete());
}

#[test]
fn queue_family_indices_complete_needs_both() {
    let half = QueueFamilyIndices { graphics_family: 0, present_family: -1 };
    assert!(!half.is_complete());
    let full = QueueFamilyIndices { graphics_family: 0, present_family: 2 };
    assert!(full.is_complete());
}

#[test]
fn queue_family_scan_takes_first_complete_point() {
    let families = vec![
        QueueFamilyDesc { queue_count: 1, supports_graphics: true, supports_present: false },
        QueueFamilyDesc { queue_count: 1, supports_graphics: false, supports_present: true },
        QueueFamilyDesc { queue_count: 1, supports_graphics: true, supports_present: true },
    ];
    let indices = find_queue_family(&families);
    // the scan stops as soon as both slots are filled: family 2 is never read
    assert_eq!(indices.graphics_family, 0);
    assert_eq!(indices.present_family, 1);
    assert!(indices.is_complete());
}

#[test]
fn queue_family_scan_skips_empty_families() {
    let families = vec![
        QueueFamilyDesc { queue_count: 0, supports_graphics: true, supports_present: true },
        QueueFamilyDesc { queue_count: 2, supports_graphics: true, supports_present: true },
    ];
    let indices = find_queue_family(&families);
    assert_eq!(indices.graphics_family, 1);
    assert_eq!(indices.present_family, 1);
}

#[test]
fn queue_family_scan_can_end_incomplete() {
    let families = vec![
        QueueFamilyDesc { queue_count: 1, supports_graphics: true, supports_present: false },
    ];
    let indices = find_queue_family(&families);
    assert_eq!(indices.graphics_family, 0);
    assert_eq!(indices.present_family, -1);
    assert!(!indices.is_complete());
}

#[test]
fn extension_support_is_set_inclusion() {
    let available = vec!["VK_KHR_swapchain".to_string(), "VK_KHR_maintenance1".to_string()];
    let required = vec!["VK_KHR_swapchain".to_string()];
    assert!(check_device_extension_support(&available, &required));
    let missing = vec!["VK_KHR_swapchain".to_string(), "VK_KHR_ray_tracing".to_string()];
    assert!(!check_device_extension_support(&available, &missing));
    let none: Vec<String> = Vec::new();
    assert!(check_device_extension_support(&available, &none));
}

#[test]
fn adapter_picker_takes_first_suitable() {
    let bad = AdapterSuitability {
        queue_families_complete: true,
        extensions_supported: false,
        formats_nonempty: true,
        present_modes_nonempty: true,
    };
    let good = AdapterSuitability {
        queue_families_complete: true,
        extensions_supported: true,
        formats_nonempty: true,
        present_modes_nonempty: true,
    };
    assert!(!is_physical_device_suitable(bad));
    assert!(is_physical_device_suitable(good));
    assert_eq!(pick_physical_device(&vec![bad, good, good]), Some(1));
    assert_eq!(pick_physical_device(&vec![bad, bad]), None);
}

#[test]
fn keyboard_state_tracks_held_keys() {
    let mut input = InputState::init();
    assert!(!input.is_btn_down(Key::W));
    input.update_btn(Key::W, true);
    input.update_btn(Key::Key7, true);
    assert!(input.is_btn_down(Key::W));
    assert!(input.is_btn_down(Key::Key7));
    assert!(!input.is_btn_down(Key::S));
    input.update_btn(Key::W, false);
    assert!(!input.is_btn_down(Key::W));
    assert!(input.is_btn_down(Key::Key7));
}

#[test]
fn stopwatch_starts_at_zero_delta() {
    let sw = Stopwatch::new();
    assert_eq!(sw.get_delta(), 0);
    assert_eq!(sw.get_delta_seconds(), 0);
    let _ = sw.get_current_delta();
    let _ = sw.check_delta();
}

#[test]
fn stopwatch_update_reads_the_clock() {
    let mut sw = Stopwatch::new();
    sw.update_time();
    assert_eq!(sw.get_delta() / 1000, sw.get_delta_seconds());
}

#[test]
fn stopwatch_default_matches_new() {
    let sw: Stopwatch = Default::default();
    assert_eq!(sw.get_delta(), 0);
}

#[test]
fn single_family_chooser_needs_both_capabilities() {
    let families = vec![
        QueueFamilyDesc { queue_count: 1, supports_graphics: true, supports_present: false },
        QueueFamilyDesc { queue_count: 0, supports_graphics: true, supports_present: true },
        QueueFamilyDesc { queue_count: 2, supports_graphics: true, supports_present: true },
    ];
    // the first family that can both draw and present; empty families skipped
    assert_eq!(select_queue_family(&families), Some(2));
    let none = vec![
        QueueFamilyDesc { queue_count: 1, supports_graphics: true, supports_present: false },
        QueueFamilyDesc { queue_count: 1, supports_graphics: false, supports_present: true },
    ];
    assert_eq!(select_queue_family(&none), None);
}
