use audio_isolation_mirror::config::{config_path, AppConfig};

#[test]
fn first_run_has_nothing_chosen() {
    let config = AppConfig::load(None);
    assert_eq!(config.input_device_name, None);
    assert_eq!(config.output_device_name, None);
    assert_eq!(config.mode_code, None);
    assert!(!config.muted && !config.dev_console && !config.simple_browser_selection);
}

#[test]
fn found_settings_are_taken() {
    let mut found = AppConfig::default();
    found.mode_code = Some(3);
    found.muted = true;
    found.input_device_name = Some("cable".to_string());
    let config = AppConfig::load(Some(found.clone()));
    assert_eq!(config.mode_code, Some(3));
    assert!(config.muted);
    assert_eq!(config.input_device_name, Some("cable".to_string()));
}

#[test]
fn settings_lie_under_the_configuration_directory() {
    let path = config_path(Some("base")).unwrap();
    assert_eq!(path.base, "base");
    assert_eq!(path.folder, "audio-isolation-mirror");
    assert_eq!(path.file, "config.json");
    assert!(config_path::<String>(None).is_none());
}

#[test]
fn nothing_is_saved_without_a_directory() {
    assert!(AppConfig::save::<String>(None, Some("{}".to_string())).is_none());
    let plan = AppConfig::save(Some(1), Some("{}".to_string())).unwrap();
    assert_eq!((plan.path.base, plan.text), (1, Some("{}".to_string())));
    assert!(AppConfig::save(Some(1), None).unwrap().text.is_none());
}
