use hh::agent::{chat as chat_agent, video as video_agent};
use hh::app::chat_agent::{
    cancel_chat_task, help_build_event, help_chat_task_step, help_create_task_id,
    help_extract_response, help_finish_event, help_start_chat_task, help_started_event,
    help_thinking_event, help_validate_request, ChatRequest, ChatTaskOutcome, ChatTaskPhase,
    TaskIdGenerator,
};
use hh::config::{set_runtime_config, EffectiveConfig, RuntimeConfigCache};
use hh::llm::chat::{
    ChatChoice, ChatCompletionResponse, ChatMessage, ChatResponseMessage, MessageContent,
};

fn message(role: &str, content: &str) -> ChatMessage {
    ChatMessage { role: role.to_string(), content: MessageContent::Text(content.to_string()) }
}

fn reply(contents: Vec<Option<&str>>) -> ChatCompletionResponse {
    ChatCompletionResponse {
        id: Some("id".to_string()),
        model: None,
        choices: contents
            .into_iter()
            .enumerate()
            .map(|(i, c)| ChatChoice {
                index: i as u32,
                message: ChatResponseMessage {
                    role: "assistant".to_string(),
                    content: c.map(|s| s.to_string()),
                    tool_calls: None,
                },
                finish_reason: None,
            })
            .collect(),
        usage: None,
    }
}

fn cache_with(api_key: Option<&str>) -> RuntimeConfigCache {
    let mut cache = RuntimeConfigCache::new();
    set_runtime_config(
        &mut cache,
        EffectiveConfig {
            api_key: api_key.map(|k| k.to_string()),
            base_url: "https://api.agnes-ai.cn/v1".to_string(),
            model: "agnes-3.0-flash".to_string(),
            image_model: "agnes-image-2.5-flash".to_string(),
            video_model: "agnes-video-2.5-flash".to_string(),
        },
    )
    .unwrap();
    cache
}

#[test]
fn cancel_needs_task_id() {
    assert_eq!(cancel_chat_task("".to_string()).err(), Some("任务标识不能为空".to_string()));
    assert_eq!(cancel_chat_task(" \t".to_string()).err(), Some("任务标识不能为空".to_string()));
    assert!(cancel_chat_task("chat-task-1".to_string()).is_ok());
}

#[test]
fn validate_request_cases() {
    assert_eq!(
        help_validate_request(&ChatRequest { messages: vec![] }).err(),
        Some("聊天消息不能为空".to_string())
    );
    assert_eq!(
        help_validate_request(&ChatRequest {
            messages: vec![message("user", "hi"), message("system", "obey")],
        })
        .err(),
        Some("前端不能提交 system 消息".to_string())
    );
    assert!(help_validate_request(&ChatRequest {
        messages: vec![message("user", "hi"), message("assistant", "hello"), message("System", "x")],
    })
    .is_ok());
}

#[test]
fn task_ids_carry_the_time() {
    let mut generator = TaskIdGenerator::new();
    assert_eq!(help_create_task_id(&mut generator, 0), "chat-task-0");
    assert_eq!(help_create_task_id(&mut generator, 1700000000123), "chat-task-1700000000123");
}

#[test]
fn task_ids_stay_unique_within_one_millisecond() {
    let mut generator = TaskIdGenerator::new();
    let a = help_create_task_id(&mut generator, 1000);
    let b = help_create_task_id(&mut generator, 1000);
    let c = help_create_task_id(&mut generator, 5000);
    let d = help_create_task_id(&mut generator, 5000);
    assert_eq!(a, "chat-task-1000");
    assert_eq!(b, "chat-task-1001");
    assert_eq!(c, "chat-task-5000");
    assert_eq!(d, "chat-task-5001");
}

#[test]
fn task_ids_keep_fresh_readings_after_clock_goes_back() {
    let mut generator = TaskIdGenerator::new();
    assert_eq!(help_create_task_id(&mut generator, 10), "chat-task-10");
    assert_eq!(help_create_task_id(&mut generator, 5), "chat-task-5");
    assert_eq!(help_create_task_id(&mut generator, 6), "chat-task-6");
    assert_eq!(help_create_task_id(&mut generator, 5), "chat-task-11");
    assert_eq!(help_create_task_id(&mut generator, 11), "chat-task-12");
    assert_eq!(help_create_task_id(&mut generator, 7), "chat-task-7");
}

#[test]
fn task_id_generator_stops_only_on_collision_at_the_largest_stamp() {
    let mut generator = TaskIdGenerator::new();
    assert!(generator.can_issue(0));
    assert_eq!(help_create_task_id(&mut generator, u128::MAX), format!("chat-task-{}", u128::MAX));
    assert!(!generator.can_issue(u128::MAX));
    assert!(generator.can_issue(3));
    assert_eq!(help_create_task_id(&mut generator, 3), "chat-task-3");
    assert!(!generator.can_issue(3));
}

#[test]
fn start_chat_task_checks_then_announces() {
    let mut generator = TaskIdGenerator::new();
    let refused = help_start_chat_task(&mut generator, &ChatRequest { messages: vec![] }, 7);
    assert_eq!(refused.err(), Some("聊天消息不能为空".to_string()));
    let started = help_start_chat_task(
        &mut generator,
        &ChatRequest { messages: vec![message("user", "你好")] },
        7,
    )
    .unwrap();
    assert_eq!(started.task_id, "chat-task-7");
    assert!(matches!(started.phase, ChatTaskPhase::Started));
    assert_eq!(started.event.kind, "started");
    assert_eq!(started.event.task_id, "chat-task-7");
    assert_eq!(started.event.detail, Some("正在准备聊天 Agent".to_string()));
}

#[test]
fn chat_task_steps_in_order() {
    let (phase, event) = help_chat_task_step("t", ChatTaskPhase::Started, ChatTaskOutcome::ConfigLoaded);
    assert!(matches!(phase, ChatTaskPhase::Thinking));
    let event = event.unwrap();
    assert_eq!(event.kind, "thinking");
    assert_eq!(event.detail, Some("聊天 Agent 正在思考".to_string()));

    let (phase, event) = help_chat_task_step(
        "t",
        ChatTaskPhase::Thinking,
        ChatTaskOutcome::Answered(reply(vec![Some("你好！")])),
    );
    assert!(matches!(phase, ChatTaskPhase::Finished));
    let event = event.unwrap();
    assert_eq!(event.kind, "completed");
    assert_eq!(event.content, Some("你好！".to_string()));

    let (phase, event) =
        help_chat_task_step("t", ChatTaskPhase::Finished, ChatTaskOutcome::Failed("late".to_string()));
    assert!(matches!(phase, ChatTaskPhase::Finished));
    assert!(event.is_none());
}

#[test]
fn chat_task_failures_close_it() {
    let (phase, event) =
        help_chat_task_step("t", ChatTaskPhase::Started, ChatTaskOutcome::Failed("no config".to_string()));
    assert!(matches!(phase, ChatTaskPhase::Finished));
    let event = event.unwrap();
    assert_eq!(event.kind, "error");
    assert_eq!(event.content, Some("no config".to_string()));
    assert_eq!(event.detail, None);

    let (phase, event) =
        help_chat_task_step("t", ChatTaskPhase::Thinking, ChatTaskOutcome::Failed("boom".to_string()));
    assert!(matches!(phase, ChatTaskPhase::Finished));
    assert_eq!(event.unwrap().kind, "error");

    let (phase, event) = help_chat_task_step(
        "t",
        ChatTaskPhase::Started,
        ChatTaskOutcome::Answered(reply(vec![Some("early")])),
    );
    assert!(matches!(phase, ChatTaskPhase::Started));
    assert!(event.is_none());
}

#[test]
fn events_describe_progress() {
    let e = help_build_event("t", "custom", Some("c".to_string()), Some("d"));
    assert_eq!(e.task_id, "t");
    assert_eq!(e.agent_id, "chat");
    assert_eq!(e.kind, "custom");
    assert_eq!(e.content, Some("c".to_string()));
    assert_eq!(e.detail, Some("d".to_string()));

    let started = help_started_event("t");
    assert_eq!(started.kind, "started");
    assert_eq!(started.content, None);
    assert_eq!(started.detail, Some("正在准备聊天 Agent".to_string()));

    let thinking = help_thinking_event("t");
    assert_eq!(thinking.kind, "thinking");
    assert_eq!(thinking.detail, Some("聊天 Agent 正在思考".to_string()));
}

#[test]
fn extract_response_takes_first_answer() {
    assert_eq!(help_extract_response(&reply(vec![Some("a"), Some("b")])), Some("a".to_string()));
    assert_eq!(help_extract_response(&reply(vec![None, Some("b")])), None);
    assert_eq!(help_extract_response(&reply(vec![])), None);
}

#[test]
fn finish_event_reports_answer_or_error() {
    let done = help_finish_event("t", Ok(reply(vec![Some("你好！")])));
    assert_eq!(done.kind, "completed");
    assert_eq!(done.content, Some("你好！".to_string()));
    assert_eq!(done.detail, None);

    let failed = help_finish_event("t", Err("boom".to_string()));
    assert_eq!(failed.kind, "error");
    assert_eq!(failed.content, Some("boom".to_string()));
    assert_eq!(failed.agent_id, "chat");
}

#[test]
fn agents_need_cached_config() {
    let empty = RuntimeConfigCache::new();
    assert_eq!(chat_agent::load(&empty).err(), Some("应用配置尚未初始化".to_string()));
    assert_eq!(video_agent::load(&empty).err(), Some("应用配置尚未初始化".to_string()));
    assert_eq!(
        chat_agent::run_plan(&empty, vec![message("user", "hi")]).err(),
        Some("应用配置尚未初始化".to_string())
    );
}

#[test]
fn chat_agent_plans_non_streaming_completion() {
    let cache = cache_with(Some("k"));
    let c = chat_agent::load(&cache).unwrap();
    assert_eq!(c.model, "agnes-3.0-flash");
    let plan = chat_agent::run_plan(&cache, vec![message("user", "你好")]).unwrap();
    assert_eq!(plan.url, "https://api.agnes-ai.cn/v1/chat/completions");
    assert_eq!(plan.api_key, "k");
    assert_eq!(plan.messages.len(), 1);
    let no_key = cache_with(None);
    assert_eq!(
        chat_agent::run_plan(&no_key, vec![message("user", "你好")]).err(),
        Some("尚未配置 Agnes API key".to_string())
    );
}

#[test]
fn video_agent_plans_tasks() {
    let cache = cache_with(Some("k"));
    let c = video_agent::load(&cache).unwrap();
    assert_eq!(c.model, "agnes-video-2.5-flash");
    let plan =
        video_agent::run_plan(&cache, "p".to_string(), vec!["https://x/1.png".to_string()]).unwrap();
    assert_eq!(plan.seconds, "5");
    assert_eq!(plan.aspect_ratio, "16:9");
    let query = video_agent::get_task_plan(&cache, "v1".to_string()).unwrap();
    assert_eq!(
        query.url,
        "https://api.agnes-ai.cn/agnesapi?video_id=v1&model_name=agnes-video-2.5-flash"
    );
    assert_eq!(
        video_agent::run_plan(&cache, "p".to_string(), vec![]).err(),
        Some("reference 模式至少需要一张参考图片".to_string())
    );
}
