use paint_engine::EngineError;
use paint_engine::validation::{
    check_layer_support, debug_messenger_config, category_label, parse_validation_toggle,
    required_layers, severity_label, CATEGORY_GENERAL, CATEGORY_PERFORMANCE, CATEGORY_VALIDATION,
    SEVERITY_ERROR, SEVERITY_INFO, SEVERITY_VERBOSE, SEVERITY_WARNING,
};

#[test]
fn toggle_unset_disables() {
    assert_eq!(parse_validation_toggle(None), Ok(false));
}

#[test]
fn toggle_one_enables() {
    assert_eq!(parse_validation_toggle(Some("1".to_string())), Ok(true));
}

#[test]
fn toggle_zero_disables() {
    assert_eq!(parse_validation_toggle(Some("0".to_string())), Ok(false));
}

#[test]
fn toggle_other_value_is_fatal() {
    assert_eq!(
        parse_validation_toggle(Some("yes".to_string())),
        Err(EngineError::InvalidValidationToggle)
    );
    assert_eq!(
        parse_validation_toggle(Some(String::new())),
        Err(EngineError::InvalidValidationToggle)
    );
}

#[test]
fn one_bundled_layer_required() {
    let layers = required_layers();
    assert_eq!(layers, vec!["VK_LAYER_KHRONOS_validation".to_string()]);
}

#[test]
fn layer_support_found() {
    let available = vec![
        "VK_LAYER_MESA_overlay".to_string(),
        "VK_LAYER_KHRONOS_validation".to_string(),
    ];
    assert!(check_layer_support(&available, &required_layers()));
}

#[test]
fn layer_support_missing() {
    let available = vec!["VK_LAYER_MESA_overlay".to_string()];
    assert!(!check_layer_support(&available, &required_layers()));
}

#[test]
fn empty_report_supports_nothing() {
    let available: Vec<String> = Vec::new();
    assert!(!check_layer_support(&available, &required_layers()));
}

#[test]
fn messenger_subscribes_to_warnings_and_errors_everywhere() {
    let config = debug_messenger_config();
    assert!(!config.severity_verbose);
    assert!(!config.severity_info);
    assert!(config.severity_warning);
    assert!(config.severity_error);
    assert!(config.category_general);
    assert!(config.category_performance);
    assert!(config.category_validation);
}

#[test]
fn severity_labels() {
    assert_eq!(severity_label(SEVERITY_VERBOSE), "[Verbose]");
    assert_eq!(severity_label(SEVERITY_INFO), "[Info]");
    assert_eq!(severity_label(SEVERITY_WARNING), "[Warning]");
    assert_eq!(severity_label(SEVERITY_ERROR), "[Error]");
    assert_eq!(severity_label(SEVERITY_WARNING | SEVERITY_ERROR), "[Unknown]");
}

#[test]
fn category_labels() {
    assert_eq!(category_label(CATEGORY_GENERAL), "[General]");
    assert_eq!(category_label(CATEGORY_PERFORMANCE), "[Performance]");
    assert_eq!(category_label(CATEGORY_VALIDATION), "[Validation]");
    assert_eq!(category_label(0), "[Unknown]");
}
