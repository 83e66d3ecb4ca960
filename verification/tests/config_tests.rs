use hh::config::{help_resolve_config, ConfigFile};

/// An empty configuration uses the fixed site and the default models.
#[test]
fn empty_file_config_uses_defaults() {
    let result = help_resolve_config(ConfigFile::default());

    assert_eq!(result.base_url, "https://api.agnes-ai.cn/v1");
    assert_eq!(result.model, "agnes-3.0-flash");
}

/// The API key comes from the configuration file only.
#[test]
fn file_api_key_is_used_without_environment_fallback() {
    let result = help_resolve_config(ConfigFile {
        api_key: Some("file-key".to_string()),
    });

    assert_eq!(result.api_key, Some("file-key".to_string()));
}

use hh::config::{
    get_runtime_config, help_apply_latest_models, help_model_version, help_models_request,
    help_parse_config, help_select_model, set_runtime_config, EffectiveConfig, ModelItem,
    ModelKind, RuntimeConfigCache,
};

fn items(ids: &[&str]) -> Vec<ModelItem> {
    ids.iter().map(|id| ModelItem { id: id.to_string() }).collect()
}

fn sample_config(api_key: Option<&str>) -> EffectiveConfig {
    EffectiveConfig {
        api_key: api_key.map(|k| k.to_string()),
        base_url: "https://api.agnes-ai.cn/v1".to_string(),
        model: "agnes-3.0-flash".to_string(),
        image_model: "agnes-image-2.5-flash".to_string(),
        video_model: "agnes-video-2.5-flash".to_string(),
    }
}

#[test]
fn resolve_keeps_defaults_for_every_family() {
    let result = help_resolve_config(ConfigFile::default());
    assert_eq!(result.api_key, None);
    assert_eq!(result.image_model, "agnes-image-2.5-flash");
    assert_eq!(result.video_model, "agnes-video-2.5-flash");
}

#[test]
fn resolve_drops_blank_api_key() {
    for blank in ["", "   ", "\t\n", "\u{3000}", "\u{a0}\u{2009}"] {
        let result = help_resolve_config(ConfigFile { api_key: Some(blank.to_string()) });
        assert_eq!(result.api_key, None, "key {:?}", blank);
    }
}

#[test]
fn resolve_keeps_key_with_surrounding_spaces_untrimmed() {
    let result = help_resolve_config(ConfigFile { api_key: Some(" key ".to_string()) });
    assert_eq!(result.api_key, Some(" key ".to_string()));
}

#[test]
fn parse_config_without_file_is_empty() {
    let result = help_parse_config(None).unwrap();
    assert_eq!(result.api_key, None);
}

#[test]
fn parse_config_passes_parsed_file_through() {
    let parsed = ConfigFile { api_key: Some("k".to_string()) };
    let result = help_parse_config(Some(Ok(parsed))).unwrap();
    assert_eq!(result.api_key, Some("k".to_string()));
}

#[test]
fn parse_config_reports_format_error() {
    let result = help_parse_config(Some(Err("expected value at line 1 column 1".to_string())));
    assert_eq!(
        result.err(),
        Some("配置文件格式错误: expected value at line 1 column 1".to_string())
    );
}

#[test]
fn runtime_config_is_missing_before_first_write() {
    let cache = RuntimeConfigCache::new();
    assert_eq!(get_runtime_config(&cache).err(), Some("应用配置尚未初始化".to_string()));
}

#[test]
fn runtime_config_reads_back_last_write() {
    let mut cache = RuntimeConfigCache::new();
    assert!(set_runtime_config(&mut cache, sample_config(Some("first"))).is_ok());
    assert!(set_runtime_config(&mut cache, sample_config(Some("second"))).is_ok());
    let read = get_runtime_config(&cache).unwrap();
    assert_eq!(read.api_key, Some("second".to_string()));
    assert_eq!(read.model, "agnes-3.0-flash");
}

#[test]
fn model_version_reads_each_family() {
    assert_eq!(help_model_version("agnes-3.0-flash", ModelKind::Text), Some((3, 0)));
    assert_eq!(help_model_version("agnes-image-2.5-flash", ModelKind::Image), Some((2, 5)));
    assert_eq!(help_model_version("agnes-video-12.34-flash", ModelKind::Video), Some((12, 34)));
}

#[test]
fn model_version_keeps_families_apart() {
    assert_eq!(help_model_version("agnes-image-2.5-flash", ModelKind::Text), None);
    assert_eq!(help_model_version("agnes-video-2.5-flash", ModelKind::Text), None);
    assert_eq!(help_model_version("agnes-3.0-flash", ModelKind::Image), None);
    assert_eq!(help_model_version("agnes-image-2.5-flash", ModelKind::Video), None);
}

#[test]
fn model_version_refuses_malformed_names() {
    for name in [
        "agnes-3-flash",
        "agnes-3.0.1-flash",
        "agnes-.1-flash",
        "agnes-3.-flash",
        "agnes-3.0-pro",
        "agnes-3.0-flash-preview",
        "gpt-3.0-flash",
        "agnes--flash",
        "agnes-flash",
        "agnes-a.b-flash",
        "agnes--3.0-flash",
        "agnes-+.0-flash",
        "agnes-4294967296.0-flash",
    ] {
        assert_eq!(help_model_version(name, ModelKind::Text), None, "name {}", name);
    }
}

#[test]
fn model_version_reads_like_integer_parsing() {
    assert_eq!(help_model_version("agnes-+3.+1-flash", ModelKind::Text), Some((3, 1)));
    assert_eq!(help_model_version("agnes-03.010-flash", ModelKind::Text), Some((3, 10)));
    assert_eq!(
        help_model_version("agnes-4294967295.0-flash", ModelKind::Text),
        Some((4294967295, 0))
    );
}

#[test]
fn select_model_takes_highest_version() {
    let models = items(&[
        "agnes-3.0-flash",
        "agnes-10.0-flash",
        "agnes-9.9-flash",
        "agnes-image-3.0-flash",
        "other",
    ]);
    assert_eq!(help_select_model(&models, ModelKind::Text), Some("agnes-10.0-flash".to_string()));
    assert_eq!(
        help_select_model(&models, ModelKind::Image),
        Some("agnes-image-3.0-flash".to_string())
    );
    assert_eq!(help_select_model(&models, ModelKind::Video), None);
}

#[test]
fn select_model_takes_last_of_equal_versions() {
    let models = items(&["agnes-3.1-flash", "agnes-03.1-flash", "agnes-3.0-flash"]);
    assert_eq!(help_select_model(&models, ModelKind::Text), Some("agnes-03.1-flash".to_string()));
}

#[test]
fn select_model_of_empty_list_is_none() {
    assert_eq!(help_select_model(&Vec::new(), ModelKind::Text), None);
}

#[test]
fn models_request_needs_api_key() {
    assert!(help_models_request(&sample_config(None)).is_none());
    let request = help_models_request(&sample_config(Some("k"))).unwrap();
    assert_eq!(request.url, "https://api.agnes-ai.cn/v1/models");
    assert_eq!(request.api_key, "k");
}

#[test]
fn apply_latest_models_updates_only_listed_families() {
    let models = items(&["agnes-3.5-flash", "agnes-video-3.0-flash", "agnes-image-x-flash"]);
    let result = help_apply_latest_models(sample_config(Some("k")), &models);
    assert_eq!(result.model, "agnes-3.5-flash");
    assert_eq!(result.image_model, "agnes-image-2.5-flash");
    assert_eq!(result.video_model, "agnes-video-3.0-flash");
    assert_eq!(result.api_key, Some("k".to_string()));
    assert_eq!(result.base_url, "https://api.agnes-ai.cn/v1");
}
