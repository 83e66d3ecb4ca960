use hh::app::settings::{help_to_settings_info, SettingsInfo};
use hh::config::EffectiveConfig;

/// The settings as the front end receives them, field by field, in JSON.
fn settings_json(info: &SettingsInfo) -> Result<String, serde_json::Error> {
    let mut map = serde_json::Map::new();
    map.insert(
        "apiKeyConfigured".to_string(),
        serde_json::Value::Bool(info.api_key_configured),
    );
    map.insert("baseUrl".to_string(), serde_json::Value::String(info.base_url.clone()));
    map.insert("model".to_string(), serde_json::Value::String(info.model.clone()));
    map.insert("imageModel".to_string(), serde_json::Value::String(info.image_model.clone()));
    map.insert("videoModel".to_string(), serde_json::Value::String(info.video_model.clone()));
    serde_json::to_string(&serde_json::Value::Object(map))
}

/// The settings sent to the front end only say whether a key exists.
#[test]
fn settings_response_does_not_expose_api_key() {
    let response = help_to_settings_info(EffectiveConfig {
        api_key: Some("secret-key".to_string()),
        base_url: "https://example.test/v1".to_string(),
        model: "chat-model".to_string(),
        image_model: "image-model".to_string(),
        video_model: "video-model".to_string(),
    });
    let serialized = settings_json(&response).expect("settings should serialize");

    assert!(response.api_key_configured);
    assert!(!serialized.contains("secret-key"));
}

#[test]
fn settings_without_key_say_so() {
    let response = help_to_settings_info(EffectiveConfig {
        api_key: None,
        base_url: "b".to_string(),
        model: "m".to_string(),
        image_model: "i".to_string(),
        video_model: "v".to_string(),
    });
    assert!(!response.api_key_configured);
    assert_eq!(response.base_url, "b");
    assert_eq!(response.model, "m");
    assert_eq!(response.image_model, "i");
    assert_eq!(response.video_model, "v");
}
