use hh::config::EffectiveConfig;
use hh::llm::chat::{
    chat_completion_plan, config as chat_config, ChatMessage, ContentPart, ImageUrl,
    MessageContent,
};
use hh::llm::embd::embedding_info;
use hh::llm::help::{
    help_check_response, help_error_detail, help_pick_error_detail, help_status_is_success,
    help_validate_image_input, JsonText,
};
use hh::llm::image::{config as image_config, generate_image_plan, ImageGenerationRequest};
use hh::llm::video::{
    config as video_config, create_video_plan, get_video_plan, VideoGenerationRequest,
};

const INVALID_IMAGE: &str = "图片必须是 http(s) URL 或图片 base64 Data URI";

fn global(api_key: Option<&str>) -> EffectiveConfig {
    EffectiveConfig {
        api_key: api_key.map(|k| k.to_string()),
        base_url: "https://api.agnes-ai.cn/v1".to_string(),
        model: "agnes-3.0-flash".to_string(),
        image_model: "agnes-image-2.5-flash".to_string(),
        video_model: "agnes-video-2.5-flash".to_string(),
    }
}

fn text(role: &str, content: &str) -> ChatMessage {
    ChatMessage { role: role.to_string(), content: MessageContent::Text(content.to_string()) }
}

fn with_image(url: &str) -> ChatMessage {
    ChatMessage {
        role: "user".to_string(),
        content: MessageContent::Parts(vec![
            ContentPart::Text { text: "look".to_string() },
            ContentPart::ImageUrl { image_url: ImageUrl { url: url.to_string() } },
        ]),
    }
}

#[test]
fn image_input_accepts_urls_and_data_uris() {
    assert!(help_validate_image_input("https://example.test/a.png").is_ok());
    assert!(help_validate_image_input("http://example.test/a.png").is_ok());
    assert!(help_validate_image_input("data:image/png;base64,AAAA").is_ok());
}

#[test]
fn image_input_refuses_other_inputs() {
    for value in ["", "ftp://x", "data:text/plain;base64,AAAA", "data:image/png,AAAA", "HTTPS://x"] {
        assert_eq!(
            help_validate_image_input(value).err(),
            Some(INVALID_IMAGE.to_string()),
            "value {:?}",
            value
        );
    }
}

#[test]
fn status_success_is_2xx() {
    assert!(help_status_is_success(200));
    assert!(help_status_is_success(299));
    assert!(!help_status_is_success(199));
    assert!(!help_status_is_success(300));
    assert!(!help_status_is_success(500));
}

#[test]
fn check_response_lets_success_through() {
    assert!(help_check_response(201, "").is_ok());
    assert!(help_check_response(200, r#"{"error":{"message":"ignored"}}"#).is_ok());
}

#[test]
fn check_response_uses_error_message() {
    let body = r#"{"error": {"message": "invalid key", "type": "auth"}, "detail": "ignored"}"#;
    assert_eq!(
        help_check_response(401, body).err(),
        Some("模型请求失败（401）：invalid key".to_string())
    );
}

#[test]
fn check_response_falls_back_to_detail() {
    assert_eq!(
        help_check_response(404, r#"{"detail": "not found"}"#).err(),
        Some("模型请求失败（404）：not found".to_string())
    );
    assert_eq!(
        help_check_response(404, r#"{"error": "plain", "detail": "not found"}"#).err(),
        Some("模型请求失败（404）：not found".to_string())
    );
    assert_eq!(
        help_check_response(404, r#"{"error": {"code": 1}, "detail": "not found"}"#).err(),
        Some("模型请求失败（404）：not found".to_string())
    );
}

#[test]
fn check_response_does_not_fall_back_from_non_text_message() {
    assert_eq!(
        help_check_response(500, r#"{"error": {"message": 42}, "detail": "not used"}"#).err(),
        Some("模型请求失败（500）：远程模型返回了未知错误".to_string())
    );
    assert_eq!(
        help_check_response(500, r#"{"error": {"message": null}, "detail": "not used"}"#).err(),
        Some("模型请求失败（500）：远程模型返回了未知错误".to_string())
    );
}

#[test]
fn check_response_without_usable_json_is_unknown() {
    for body in ["", "not json", "[1, 2]", "\"detail\"", r#"{"detail": 5}"#, r#"{"message": "x"}"#] {
        assert_eq!(
            help_check_response(502, body).err(),
            Some("模型请求失败（502）：远程模型返回了未知错误".to_string()),
            "body {:?}",
            body
        );
    }
    assert_eq!(
        help_check_response(0, "{}").err(),
        Some("模型请求失败（0）：远程模型返回了未知错误".to_string())
    );
}

#[test]
fn pick_error_detail_prefers_message() {
    let text = |s: &str| Some(JsonText::Text(s.to_string()));
    assert_eq!(help_pick_error_detail(text("m"), text("d")), "m");
    assert_eq!(help_pick_error_detail(Some(JsonText::Missing), text("d")), "d");
    assert_eq!(help_pick_error_detail(Some(JsonText::NotText), text("d")), "远程模型返回了未知错误");
    assert_eq!(help_pick_error_detail(Some(JsonText::Missing), Some(JsonText::NotText)), "远程模型返回了未知错误");
    assert_eq!(help_pick_error_detail(Some(JsonText::Missing), Some(JsonText::Missing)), "远程模型返回了未知错误");
    assert_eq!(help_pick_error_detail(None, text("d")), "远程模型返回了未知错误");
}

#[test]
fn error_detail_reads_the_body() {
    assert_eq!(help_error_detail(r#"{"error":{"message":"quota"}}"#), "quota");
    assert_ne!(help_error_detail(r#"{"error":{"message":"quota"}}"#), help_error_detail("{}"));
}

#[test]
fn chat_config_comes_from_global() {
    let c = chat_config::from_global(&global(Some("k")));
    assert_eq!(c.api_key, Some("k".to_string()));
    assert_eq!(c.base_url, "https://api.agnes-ai.cn/v1");
    assert_eq!(c.model, "agnes-3.0-flash");
    assert_eq!(c.endpoint, "/chat/completions");
    assert!(c.supports_image);
}

#[test]
fn chat_plan_for_valid_conversation() {
    let c = chat_config::from_global(&global(Some("k")));
    let messages = vec![text("user", "你好"), with_image("data:image/png;base64,AA")];
    let plan = chat_completion_plan(&c, messages, None).unwrap();
    assert_eq!(plan.url, "https://api.agnes-ai.cn/v1/chat/completions");
    assert_eq!(plan.api_key, "k");
    assert_eq!(plan.model, "agnes-3.0-flash");
    assert_eq!(plan.messages.len(), 2);
    assert_eq!(plan.messages[0].role, "user");
    assert!(matches!(&plan.messages[0].content, MessageContent::Text(t) if t == "你好"));
    assert!(chat_completion_plan(&c, vec![text("user", "hi")], Some(false)).is_ok());
}

#[test]
fn chat_plan_refusals() {
    let mut c = chat_config::from_global(&global(Some("k")));
    assert_eq!(chat_completion_plan(&c, vec![], None).err(), Some("至少需要一条消息".to_string()));
    assert_eq!(
        chat_completion_plan(&c, vec![text("user", "hi")], Some(true)).err(),
        Some("当前聊天适配器暂不支持流式响应".to_string())
    );
    assert_eq!(
        chat_completion_plan(&c, vec![text("user", "hi"), with_image("ftp://x")], None).err(),
        Some(INVALID_IMAGE.to_string())
    );
    c.supports_image = false;
    assert_eq!(
        chat_completion_plan(&c, vec![with_image("ftp://x")], None).err(),
        Some("当前聊天模型不支持图片输入".to_string())
    );
    assert!(chat_completion_plan(&c, vec![text("user", "hi")], None).is_ok());
    let no_key = chat_config::from_global(&global(None));
    assert_eq!(
        chat_completion_plan(&no_key, vec![text("user", "hi")], None).err(),
        Some("尚未配置 Agnes API key".to_string())
    );
}

fn image_request(prompt: &str, size: &str) -> ImageGenerationRequest {
    ImageGenerationRequest {
        prompt: prompt.to_string(),
        size: size.to_string(),
        ratio: None,
        images: None,
        return_base64: None,
    }
}

#[test]
fn image_config_comes_from_global() {
    let c = image_config::from_global(&global(Some("k")));
    assert_eq!(c.model, "agnes-image-2.5-flash");
    assert_eq!(c.endpoint, "/images/generations");
    assert_eq!(c.default_size, "1K");
    assert_eq!(c.default_ratio, "1:1");
    assert_eq!(c.max_reference_images, 5);
}

#[test]
fn image_plan_uses_defaults() {
    let c = image_config::from_global(&global(Some("k")));
    let plan = generate_image_plan(&c, image_request("a cat", "  ")).unwrap();
    assert_eq!(plan.url, "https://api.agnes-ai.cn/v1/images/generations");
    assert_eq!(plan.api_key, "k");
    assert_eq!(plan.model, "agnes-image-2.5-flash");
    assert_eq!(plan.prompt, "a cat");
    assert_eq!(plan.size, "1K");
    assert_eq!(plan.ratio, "1:1");
    assert!(!plan.return_base64);
    assert_eq!(plan.images, None);
    assert_eq!(plan.response_format, "url");
}

#[test]
fn image_plan_keeps_given_options() {
    let c = image_config::from_global(&global(Some("k")));
    let mut request = image_request("a cat", "2K");
    request.ratio = Some("16:9".to_string());
    request.images = Some(vec!["https://x/1.png".to_string()]);
    request.return_base64 = Some(true);
    let plan = generate_image_plan(&c, request).unwrap();
    assert_eq!(plan.size, "2K");
    assert_eq!(plan.ratio, "16:9");
    assert!(plan.return_base64);
    assert_eq!(plan.images, Some(vec!["https://x/1.png".to_string()]));
    assert_eq!(plan.response_format, "b64_json");
}

#[test]
fn image_plan_refusals() {
    let c = image_config::from_global(&global(Some("k")));
    assert_eq!(
        generate_image_plan(&c, image_request(" \n", "1K")).err(),
        Some("图片提示词不能为空".to_string())
    );
    let mut many = image_request("p", "1K");
    many.images = Some(vec!["https://x".to_string(); 6]);
    assert_eq!(generate_image_plan(&c, many).err(), Some("图片参考图最多支持 5 张".to_string()));
    let mut bad = image_request("p", "1K");
    bad.images = Some(vec!["https://x".to_string(), "file:///x".to_string()]);
    assert_eq!(generate_image_plan(&c, bad).err(), Some(INVALID_IMAGE.to_string()));
    let mut five = image_request("p", "1K");
    five.images = Some(vec!["https://x".to_string(); 5]);
    assert!(generate_image_plan(&c, five).is_ok());
    let no_key = image_config::from_global(&global(None));
    assert_eq!(
        generate_image_plan(&no_key, image_request("p", "1K")).err(),
        Some("尚未配置 Agnes API key".to_string())
    );
}

fn video_request(prompt: &str, images: usize) -> VideoGenerationRequest {
    VideoGenerationRequest {
        prompt: prompt.to_string(),
        seconds: None,
        aspect_ratio: None,
        images: vec!["https://x/1.png".to_string(); images],
    }
}

#[test]
fn video_config_comes_from_global() {
    let c = video_config::from_global(&global(Some("k")));
    assert_eq!(c.model, "agnes-video-2.5-flash");
    assert_eq!(c.query_base_url, "https://api.agnes-ai.cn");
    assert_eq!(c.create_endpoint, "/videos");
    assert_eq!(c.query_endpoint, "/agnesapi");
    assert_eq!(c.mode, "reference");
    assert_eq!(c.size, "720P");
    assert_eq!(c.default_seconds, "5");
    assert_eq!(c.default_aspect_ratio, "16:9");
    assert_eq!(c.max_reference_images, 5);
}

#[test]
fn video_plan_uses_defaults() {
    let c = video_config::from_global(&global(Some("k")));
    let plan = create_video_plan(&c, video_request("a dog runs", 2)).unwrap();
    assert_eq!(plan.url, "https://api.agnes-ai.cn/v1/videos");
    assert_eq!(plan.api_key, "k");
    assert_eq!(plan.model, "agnes-video-2.5-flash");
    assert_eq!(plan.prompt, "a dog runs");
    assert_eq!(plan.seconds, "5");
    assert_eq!(plan.mode, "reference");
    assert_eq!(plan.size, "720P");
    assert_eq!(plan.aspect_ratio, "16:9");
    assert_eq!(plan.n, 1);
    assert_eq!(plan.images.len(), 2);
}

#[test]
fn video_plan_keeps_given_options() {
    let c = video_config::from_global(&global(Some("k")));
    let mut request = video_request("p", 1);
    request.seconds = Some("10".to_string());
    request.aspect_ratio = Some("9:16".to_string());
    let plan = create_video_plan(&c, request).unwrap();
    assert_eq!(plan.seconds, "10");
    assert_eq!(plan.aspect_ratio, "9:16");
}

#[test]
fn video_plan_refusals() {
    let c = video_config::from_global(&global(Some("k")));
    assert_eq!(create_video_plan(&c, video_request("", 1)).err(), Some("视频提示词不能为空".to_string()));
    assert_eq!(
        create_video_plan(&c, video_request("p", 0)).err(),
        Some("reference 模式至少需要一张参考图片".to_string())
    );
    assert_eq!(
        create_video_plan(&c, video_request("p", 6)).err(),
        Some("reference 模式最多支持 5 张参考图片".to_string())
    );
    let mut bad = video_request("p", 1);
    bad.images.push("not an image".to_string());
    assert_eq!(create_video_plan(&c, bad).err(), Some(INVALID_IMAGE.to_string()));
    let no_key = video_config::from_global(&global(None));
    assert_eq!(
        create_video_plan(&no_key, video_request("p", 1)).err(),
        Some("尚未配置 Agnes API key".to_string())
    );
}

#[test]
fn video_query_plan() {
    let c = video_config::from_global(&global(Some("k")));
    let plan = get_video_plan(&c, "vid-1".to_string()).unwrap();
    assert_eq!(
        plan.url,
        "https://api.agnes-ai.cn/agnesapi?video_id=vid-1&model_name=agnes-video-2.5-flash"
    );
    assert_eq!(plan.api_key, "k");
    assert_eq!(get_video_plan(&c, "  ".to_string()).err(), Some("视频任务标识不能为空".to_string()));
    let no_key = video_config::from_global(&global(None));
    assert_eq!(
        get_video_plan(&no_key, "vid-1".to_string()).err(),
        Some("尚未配置 Agnes API key".to_string())
    );
}

#[test]
fn embedding_info_describes_bundled_model() {
    let info = embedding_info();
    assert_eq!(info.model, "bge-small-zh-v1.5");
    assert_eq!(info.dimension, 512);
    assert_eq!(info.max_tokens, 512);
    assert!(info.quantized);
}
