use hello_triangle::model::{DeviceCandidate, QueueFamilyIndices, QueueFamilyProps};
use hello_triangle::selector::{
    get_queue_families, pick_physical_device, rate_device_suitability, SelectionError,
};

fn suitable_candidate() -> DeviceCandidate {
    DeviceCandidate {
        discrete_gpu: false,
        max_image_dimension_2d: 4096,
        supports_geometry_shader: true,
        queue_families: QueueFamilyIndices {
            graphics_family: Some(0),
            present_family: Some(0),
        },
        extensions_satisfied: true,
        surface_format_count: 1,
        present_mode_count: 1,
    }
}

#[test]
fn discrete_gpu_gets_base_bonus() {
    let integrated = suitable_candidate();
    let discrete = DeviceCandidate { discrete_gpu: true, ..suitable_candidate() };
    assert_eq!(rate_device_suitability(&integrated), 4096);
    assert_eq!(rate_device_suitability(&discrete), 5096);
}

#[test]
fn missing_graphics_role_scores_zero() {
    let c = DeviceCandidate {
        discrete_gpu: true,
        max_image_dimension_2d: u32::MAX,
        queue_families: QueueFamilyIndices {
            graphics_family: None,
            present_family: Some(0),
        },
        ..suitable_candidate()
    };
    assert_eq!(rate_device_suitability(&c), 0);
}

#[test]
fn missing_present_role_scores_zero() {
    let c = DeviceCandidate {
        discrete_gpu: true,
        queue_families: QueueFamilyIndices {
            graphics_family: Some(0),
            present_family: None,
        },
        ..suitable_candidate()
    };
    assert_eq!(rate_device_suitability(&c), 0);
}

#[test]
fn missing_extension_scores_zero() {
    let c = DeviceCandidate {
        discrete_gpu: true,
        extensions_satisfied: false,
        ..suitable_candidate()
    };
    assert_eq!(rate_device_suitability(&c), 0);
}

#[test]
fn zero_surface_formats_scores_zero() {
    let c = DeviceCandidate { discrete_gpu: true, surface_format_count: 0, ..suitable_candidate() };
    assert_eq!(rate_device_suitability(&c), 0);
}

#[test]
fn zero_present_modes_scores_zero() {
    let c = DeviceCandidate { discrete_gpu: true, present_mode_count: 0, ..suitable_candidate() };
    assert_eq!(rate_device_suitability(&c), 0);
}

#[test]
fn missing_geometry_shader_scores_zero() {
    let c = DeviceCandidate {
        discrete_gpu: true,
        supports_geometry_shader: false,
        ..suitable_candidate()
    };
    assert_eq!(rate_device_suitability(&c), 0);
}

#[test]
fn maximum_score_wins() {
    let weak = suitable_candidate();
    let strong = DeviceCandidate { discrete_gpu: true, ..suitable_candidate() };
    let candidates = vec![weak, strong, weak];
    assert_eq!(pick_physical_device(&candidates), Ok(1));
}

#[test]
fn equal_maximum_first_seen_wins() {
    let weak = suitable_candidate();
    let strong = DeviceCandidate { discrete_gpu: true, ..suitable_candidate() };
    let candidates = vec![weak, strong, strong, strong];
    assert_eq!(pick_physical_device(&candidates), Ok(1));
}

#[test]
fn no_devices_is_its_own_error() {
    let candidates: Vec<DeviceCandidate> = vec![];
    assert_eq!(pick_physical_device(&candidates), Err(SelectionError::NoDevices));
}

#[test]
fn all_unsuitable_is_its_own_error() {
    let unsuitable = DeviceCandidate { supports_geometry_shader: false, ..suitable_candidate() };
    let candidates = vec![unsuitable, unsuitable];
    assert_eq!(pick_physical_device(&candidates), Err(SelectionError::NoSuitableDevice));
}

#[test]
fn selection_error_messages_differ() {
    let no_gpu = SelectionError::NoDevices.message();
    let no_fit = SelectionError::NoSuitableDevice.message();
    assert_eq!(no_gpu, "failed to find gpus with vulkan support");
    assert_eq!(no_fit, "failed to find a suitable gpu");
    assert_ne!(no_gpu, no_fit);
}

#[test]
fn first_index_fills_each_role() {
    let families = vec![
        QueueFamilyProps { supports_graphics: false, supports_present: false },
        QueueFamilyProps { supports_graphics: true, supports_present: false },
        QueueFamilyProps { supports_graphics: true, supports_present: true },
    ];
    let indices = get_queue_families(&families);
    assert_eq!(indices.graphics_family, Some(1));
    assert_eq!(indices.present_family, Some(2));
    assert!(indices.is_complete());
}

#[test]
fn later_families_never_override() {
    let families = vec![
        QueueFamilyProps { supports_graphics: true, supports_present: true },
        QueueFamilyProps { supports_graphics: true, supports_present: true },
    ];
    let indices = get_queue_families(&families);
    assert_eq!(indices.graphics_family, Some(0));
    assert_eq!(indices.present_family, Some(0));
}

#[test]
fn unfilled_roles_stay_empty() {
    let families = vec![
        QueueFamilyProps { supports_graphics: true, supports_present: false },
        QueueFamilyProps { supports_graphics: true, supports_present: false },
    ];
    let indices = get_queue_families(&families);
    assert_eq!(indices.graphics_family, Some(0));
    assert_eq!(indices.present_family, None);
    assert!(!indices.is_complete());
}

#[test]
fn no_families_no_roles() {
    let families: Vec<QueueFamilyProps> = vec![];
    let indices = get_queue_families(&families);
    assert_eq!(indices.graphics_family, None);
    assert_eq!(indices.present_family, None);
    assert!(!indices.is_complete());
}
