use privatewhisper::config::{
    config_path_in, Config, ConfigError, ConfigSource, PartialConfig, Provider,
};

fn no_keys() -> PartialConfig {
    PartialConfig {
        hotkey: None,
        execution_provider: None,
        input_device: None,
        paste_delay_ms: None,
        model_dir: None,
        ort_dylib_path: None,
        ort_lib_dir: None,
    }
}

#[test]
fn default_has_ctrl_space_and_cuda() {
    let c = Config::default();
    assert_eq!(c.hotkey, "Ctrl+Space");
    assert_eq!(c.execution_provider, Provider::Cuda);
    assert_eq!(c.paste_delay_ms, 80);
}

#[test]
fn partial_toml_fills_defaults() {
    let table: toml::Table = toml::from_str("hotkey = \"Ctrl+Space\"\n").unwrap();
    let mut keys = no_keys();
    keys.hotkey = table.get("hotkey").and_then(|v| v.as_str()).map(|s| s.to_string());
    let back = Config::from_partial(keys);
    assert_eq!(back.execution_provider, Provider::Cuda);
    assert_eq!(back.paste_delay_ms, 80);
}

#[test]
fn load_from_missing_path_returns_default() {
    let loaded = Config::load_from(ConfigSource::Missing).unwrap();
    assert_eq!(loaded, Config::default());
}

#[test]
fn every_key_given_is_kept() {
    let c = Config {
        hotkey: "Ctrl+Alt+D".into(),
        execution_provider: Provider::Cpu,
        input_device: Some("Mic".into()),
        paste_delay_ms: 120,
        model_dir: None,
        ort_dylib_path: Some("C:/ort/onnxruntime.dll".into()),
        ort_lib_dir: None,
    };
    let keys = PartialConfig {
        hotkey: Some(c.hotkey.clone()),
        execution_provider: Some(c.execution_provider),
        input_device: c.input_device.clone(),
        paste_delay_ms: Some(c.paste_delay_ms),
        model_dir: c.model_dir.clone(),
        ort_dylib_path: c.ort_dylib_path.clone(),
        ort_lib_dir: c.ort_lib_dir.clone(),
    };
    assert_eq!(Config::from_partial(keys), c);
}

#[test]
fn unreadable_and_malformed_files_are_errors() {
    assert_eq!(
        Config::load_from(ConfigSource::Unreadable("denied".into())),
        Err(ConfigError::Unreadable("denied".into()))
    );
    assert_eq!(
        Config::load_from(ConfigSource::Malformed("bad".into())),
        Err(ConfigError::Malformed("bad".into()))
    );
}

#[test]
fn missing_settings_file_is_created() {
    let (c, save) = Config::load_or_create(ConfigSource::Missing, false).unwrap();
    assert_eq!(c, Config::default());
    assert!(save);
    let mut keys = no_keys();
    keys.paste_delay_ms = Some(200);
    let (c, save) = Config::load_or_create(ConfigSource::Parsed(keys), true).unwrap();
    assert_eq!(c.paste_delay_ms, 200);
    assert!(!save);
}

#[test]
fn settings_file_sits_in_the_config_dir() {
    assert_eq!(
        config_path_in(Some("/home/a/.config".into())),
        Ok("/home/a/.config/privatewhisper/config.toml".to_string())
    );
    assert_eq!(config_path_in(None), Err(ConfigError::NoConfigDir));
}

#[test]
fn default_settings_file_is_config_toml_of_privatewhisper() {
    let path = Config::default_path().unwrap();
    assert!(path.ends_with("privatewhisper/config.toml"));
    assert!(path.contains("privatewhisper"));
}

#[test]
fn ort_dylib_path_key_is_kept_and_unset_by_default() {
    assert_eq!(Config::default().ort_dylib_path, None);
    let table: toml::Table = toml::from_str("ort_dylib_path = \"C:/ort/onnxruntime.dll\"\n").unwrap();
    let mut keys = no_keys();
    keys.ort_dylib_path = table.get("ort_dylib_path").and_then(|v| v.as_str()).map(|s| s.to_string());
    let c = Config::load_from(ConfigSource::Parsed(keys)).unwrap();
    assert_eq!(c.ort_dylib_path.as_deref(), Some("C:/ort/onnxruntime.dll"));
    let mut expected = Config::default();
    expected.ort_dylib_path = Some("C:/ort/onnxruntime.dll".to_string());
    assert_eq!(c, expected);
}
