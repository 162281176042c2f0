use hello_triangle::context::{
    check_device_extension_support, check_validation_layer_support, classify_message,
    debug_messenger_config, device_config, device_extension_names, get_api_version,
    get_required_extensions, instance_config, unique_queue_families, validation_layer_names,
    MessageKind, Severity, StartupError, SEVERITY_ERROR_BIT, SEVERITY_VERBOSE_BIT,
    SEVERITY_WARNING_BIT, TYPE_GENERAL_BIT, TYPE_PERFORMANCE_BIT, TYPE_VALIDATION_BIT,
};

#[test]
fn requested_layers_found_in_enumeration() {
    let available = vec![
        "VK_LAYER_other".to_owned(),
        "VK_LAYER_KHRONOS_validation".to_owned(),
    ];
    assert!(check_validation_layer_support(&available, &validation_layer_names()));
}

#[test]
fn missing_layer_is_detected() {
    let available = vec!["VK_LAYER_other".to_owned()];
    assert!(!check_validation_layer_support(&available, &validation_layer_names()));
}

#[test]
fn empty_request_is_always_satisfied() {
    let available: Vec<String> = vec![];
    let requested: Vec<String> = vec![];
    assert!(check_validation_layer_support(&available, &requested));
}

#[test]
fn device_extension_set_is_swapchain_only() {
    let names = device_extension_names();
    assert_eq!(names, vec!["VK_KHR_swapchain".to_owned()]);
}

#[test]
fn device_extension_check_matches_by_name() {
    let available = vec!["VK_KHR_swapchain".to_owned(), "VK_KHR_other".to_owned()];
    assert!(check_device_extension_support(&available, &device_extension_names()));
    let without = vec!["VK_KHR_other".to_owned()];
    assert!(!check_device_extension_support(&without, &device_extension_names()));
}

#[test]
fn diagnostics_append_debug_extension() {
    let platform = vec!["VK_KHR_surface".to_owned(), "VK_KHR_xcb_surface".to_owned()];
    let with = get_required_extensions(platform.clone(), true);
    assert_eq!(
        with,
        vec![
            "VK_KHR_surface".to_owned(),
            "VK_KHR_xcb_surface".to_owned(),
            "VK_EXT_debug_utils".to_owned(),
        ]
    );
    let without = get_required_extensions(platform.clone(), false);
    assert_eq!(without, platform);
}

#[test]
fn api_version_packs_major_and_minor() {
    assert_eq!(get_api_version(1, 0), 0x400000);
    assert_eq!(get_api_version(1, 3), 0x400000 + 3 * 0x1000);
}

#[test]
fn shared_family_yields_one_queue_entry() {
    assert_eq!(unique_queue_families(2, 2), vec![2]);
}

#[test]
fn distinct_families_yield_two_queue_entries() {
    assert_eq!(unique_queue_families(0, 3), vec![0, 3]);
}

#[test]
fn device_config_mirrors_layers_when_diagnosing() {
    let config = device_config(0, 1, true);
    assert_eq!(config.queue_families, vec![0, 1]);
    assert_eq!(config.queues_per_family, 1);
    assert_eq!(config.enabled_extensions, vec!["VK_KHR_swapchain".to_owned()]);
    assert_eq!(config.enabled_layers, vec!["VK_LAYER_KHRONOS_validation".to_owned()]);
}

#[test]
fn device_config_without_diagnostics_has_no_layers() {
    let config = device_config(2, 2, false);
    assert_eq!(config.queue_families, vec![2]);
    assert!(config.enabled_layers.is_empty());
}

#[test]
fn instance_config_without_diagnostics() {
    let available: Vec<String> = vec![];
    let platform = vec!["VK_KHR_surface".to_owned()];
    let config = instance_config(&available, platform.clone(), false).unwrap();
    assert_eq!(config.application_name, "Hello Triangle");
    assert_eq!(config.engine_name, "No Engine");
    assert_eq!(config.application_version, 0);
    assert_eq!(config.engine_version, 0x400000);
    assert_eq!(config.api_version, 0x400000);
    assert!(config.enabled_layers.is_empty());
    assert_eq!(config.enabled_extensions, platform);
    assert!(!config.chain_debug_messenger);
}

#[test]
fn instance_config_with_diagnostics_chains_messenger() {
    let available = vec!["VK_LAYER_KHRONOS_validation".to_owned()];
    let platform = vec!["VK_KHR_surface".to_owned()];
    let config = instance_config(&available, platform, true).unwrap();
    assert_eq!(config.enabled_layers, vec!["VK_LAYER_KHRONOS_validation".to_owned()]);
    assert_eq!(
        config.enabled_extensions,
        vec!["VK_KHR_surface".to_owned(), "VK_EXT_debug_utils".to_owned()]
    );
    assert!(config.chain_debug_messenger);
}

#[test]
fn missing_validation_layer_is_fatal() {
    let available = vec!["VK_LAYER_other".to_owned()];
    let platform = vec!["VK_KHR_surface".to_owned()];
    let err = instance_config(&available, platform, true).unwrap_err();
    assert_eq!(err, StartupError::ValidationLayersUnavailable);
    assert_eq!(err.message(), "validation layers requested, but not available");
}

#[test]
fn severities_classify_by_bit() {
    assert_eq!(classify_message(SEVERITY_VERBOSE_BIT, TYPE_GENERAL_BIT).severity, Severity::Verbose);
    assert_eq!(classify_message(SEVERITY_WARNING_BIT, TYPE_GENERAL_BIT).severity, Severity::Warning);
    assert_eq!(classify_message(SEVERITY_ERROR_BIT, TYPE_GENERAL_BIT).severity, Severity::Error);
    assert_eq!(classify_message(0x10, TYPE_GENERAL_BIT).severity, Severity::Other);
}

#[test]
fn kinds_classify_by_bit() {
    assert_eq!(classify_message(SEVERITY_ERROR_BIT, TYPE_GENERAL_BIT).kind, MessageKind::General);
    assert_eq!(
        classify_message(SEVERITY_ERROR_BIT, TYPE_VALIDATION_BIT).kind,
        MessageKind::Validation
    );
    assert_eq!(
        classify_message(SEVERITY_ERROR_BIT, TYPE_PERFORMANCE_BIT).kind,
        MessageKind::Performance
    );
    assert_eq!(classify_message(SEVERITY_ERROR_BIT, 0x8).kind, MessageKind::Other);
}

#[test]
fn callback_never_aborts_the_call() {
    assert!(!classify_message(SEVERITY_ERROR_BIT, TYPE_VALIDATION_BIT).abort_call);
    assert!(!classify_message(0, 0).abort_call);
}

#[test]
fn messenger_listens_to_all_configured_bits() {
    let config = debug_messenger_config();
    assert_eq!(config.severity_mask, SEVERITY_VERBOSE_BIT | SEVERITY_WARNING_BIT | SEVERITY_ERROR_BIT);
    assert_eq!(config.type_mask, TYPE_GENERAL_BIT | TYPE_VALIDATION_BIT | TYPE_PERFORMANCE_BIT);
}
