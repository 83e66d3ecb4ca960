//! The chat adapter: message types, reply types, and the checks and
//! request plan of a non-streaming chat completion.
use vstd::prelude::*;
use vstd::string::*;
use crate::llm::help::{help_validate_image_input, invalid_image_error, valid_image_input};
use crate::text::owned;

pub mod config;

verus! {

broadcast use vstd::string::group_string_axioms;

/// The content of a chat message: plain text or a list of parts.
pub enum MessageContent {
    Text(String),
    Parts(Vec<ContentPart>),
}

/// One part of a multi-part message.
pub enum ContentPart {
    Text { text: String },
    ImageUrl { image_url: ImageUrl },
}

/// An image given by URL or data URI.
pub struct ImageUrl {
    pub url: String,
}

/// One message of a conversation.
pub struct ChatMessage {
    pub role: String,
    pub content: MessageContent,
}

/// The model's reply to a chat completion.
pub struct ChatCompletionResponse {
    pub id: Option<String>,
    pub model: Option<String>,
    pub choices: Vec<ChatChoice>,
    pub usage: Option<serde_json::Value>,
}

/// One alternative answer of a reply.
pub struct ChatChoice {
    pub index: u32,
    pub message: ChatResponseMessage,
    pub finish_reason: Option<String>,
}

/// The message of one answer.
pub struct ChatResponseMessage {
    pub role: String,
    pub content: Option<String>,
    pub tool_calls: Option<serde_json::Value>,
}

/// What a checked chat completion is sent with: where, with which key, for
/// which model, and the messages that were checked. The request is never
/// streamed.
pub struct ChatCallPlan {
    pub url: String,
    pub api_key: String,
    pub model: String,
    pub messages: Vec<ChatMessage>,
}

/// The image URL of part `j` of message `i`, when that part is an image.
pub open spec fn image_at(messages: Seq<ChatMessage>, i: int, j: int) -> Option<Seq<char>> {
    if 0 <= i < messages.len() {
        match messages[i].content {
            MessageContent::Parts(parts) => if 0 <= j < parts@.len() {
                match parts@[j] {
                    ContentPart::ImageUrl { image_url } => Some(image_url.url@),
                    ContentPart::Text { .. } => None,
                }
            } else {
                None
            },
            MessageContent::Text(_) => None,
        }
    } else {
        None
    }
}

/// Some message has an image part.
pub open spec fn has_image(messages: Seq<ChatMessage>) -> bool {
    exists|i: int, j: int| (#[trigger] image_at(messages, i, j)) is Some
}

/// Every image part holds an acceptable image input.
pub open spec fn images_valid(messages: Seq<ChatMessage>) -> bool {
    forall|i: int, j: int|
        #[trigger] image_at(messages, i, j) matches Some(u) ==> valid_image_input(u)
}

/// The messages for the checks of a chat completion.
pub open spec fn no_messages_error() -> Seq<char> {
    "至少需要一条消息"@
}

pub open spec fn streaming_error() -> Seq<char> {
    "当前聊天适配器暂不支持流式响应"@
}

pub open spec fn no_image_support_error() -> Seq<char> {
    "当前聊天模型不支持图片输入"@
}

pub open spec fn missing_api_key_error() -> Seq<char> {
    "尚未配置 Agnes API key"@
}

/// The outcome of the checks of a chat completion: the first failing check's
/// message, or, when all pass, nothing.
pub open spec fn chat_check(
    config: config::Config,
    messages: Seq<ChatMessage>,
    stream: Option<bool>,
) -> Option<Seq<char>> {
    if messages.len() == 0 {
        Some(no_messages_error())
    } else if stream == Some(true) {
        Some(streaming_error())
    } else if has_image(messages) && !config.supports_image {
        Some(no_image_support_error())
    } else if !images_valid(messages) {
        Some(invalid_image_error())
    } else if config.api_key is None {
        Some(missing_api_key_error())
    } else {
        None
    }
}

/// The outcome of a chat completion's checks and plan: the first failing
/// check's message, else a request to the configured endpoint of the
/// configured site, with the key and the text model.
pub open spec fn chat_completion_plan_result(
    config: config::Config,
    messages: Seq<ChatMessage>,
    stream: Option<bool>,
    r: Result<ChatCallPlan, String>,
) -> bool {
    match chat_check(config, messages, stream) {
        Some(e) => r matches Err(m) && m@ == e,
        None => r matches Ok(plan) && config.api_key matches Some(k) && plan.api_key@ == k@
            && plan.url@ == config.base_url@ + config.endpoint@ && plan.model@ == config.model@
            && plan.messages@ == messages,
    }
}

/// Checks a chat completion and plans its request: at least one message, no
/// streaming, image parts only for a model that takes images and only as
/// acceptable inputs, and an API key. The request goes to the configured
/// endpoint of the configured site.
pub fn chat_completion_plan(
    current_config: &config::Config,
    messages: Vec<ChatMessage>,
    stream: Option<bool>,
) -> (r: Result<ChatCallPlan, String>)
    ensures
        chat_completion_plan_result(*current_config, messages@, stream, r),
{
    if messages.len() == 0 {
        return Err(owned("至少需要一条消息"));
    }
    if let Some(true) = stream {
        return Err(owned("当前聊天适配器暂不支持流式响应"));
    }
    let ghost ms = messages@;
    for i in 0..messages.len()
        invariant
            ms == messages@,
            ms.len() > 0,
            stream != Some(true),
            forall|a: int, b: int|
                0 <= a < i ==> (#[trigger] image_at(ms, a, b) matches Some(u) ==> (
                current_config.supports_image && valid_image_input(u))),
    {
        if let MessageContent::Parts(parts) = &messages[i] .content {
            for j in 0..parts.len()
                invariant
                    ms == messages@,
                    stream != Some(true),
                    0 <= i < ms.len(),
                    ms[i as int].content == MessageContent::Parts(*parts),
                    forall|a: int, b: int|
                        0 <= a < i ==> (#[trigger] image_at(ms, a, b) matches Some(u) ==> (
                        current_config.supports_image && valid_image_input(u))),
                    forall|b: int|
                        b < j ==> (#[trigger] image_at(ms, i as int, b) matches Some(u) ==> (
                        current_config.supports_image && valid_image_input(u))),
            {
                if let ContentPart::ImageUrl { image_url } = &parts[j] {
                    assert(image_at(ms, i as int, j as int) == Some(image_url.url@));
                    if !current_config.supports_image {
                        return Err(owned("当前聊天模型不支持图片输入"));
                    }
                    if help_validate_image_input(image_url.url.as_str()).is_err() {
                        return Err(owned("图片必须是 http(s) URL 或图片 base64 Data URI"));
                    }
                }
            }
        }
    }
    let api_key = match &current_config.api_key {
        Some(k) => k.clone(),
        None => {
            return Err(owned("尚未配置 Agnes API key"));
        },
    };
    let mut url = current_config.base_url.clone();
    url.append(current_config.endpoint.as_str());
    Ok(ChatCallPlan { url, api_key, model: current_config.model.clone(), messages })
}

/// A non-empty conversation that is not streamed, whose image parts (if
/// any) go to a model that takes images and are all acceptable inputs,
/// passes the checks when there is an API key; the plan then sends those
/// very messages to the configured endpoint of the configured site.
pub proof fn lemma_acceptable_chat_passes(
    config: config::Config,
    messages: Seq<ChatMessage>,
    stream: Option<bool>,
    r: Result<ChatCallPlan, String>,
)
    requires
        messages.len() > 0,
        stream != Some(true),
        forall|i: int, j: int|
            #[trigger] image_at(messages, i, j) matches Some(u) ==> config.supports_image
                && valid_image_input(u),
        config.api_key is Some,
        chat_completion_plan_result(config, messages, stream, r),
    ensures
        chat_check(config, messages, stream) is None,
        r matches Ok(plan) && plan.messages@ == messages && plan.url@ == config.base_url@
            + config.endpoint@ && plan.model@ == config.model@,
{
    if has_image(messages) {
        let (i, j) = choose|i: int, j: int| (#[trigger] image_at(messages, i, j)) is Some;
        assert(config.supports_image);
    }
}

/// A conversation is refused when it is empty, when it asks for streaming,
/// and when it has an image part but the model takes no images.
pub proof fn lemma_chat_refusals(config: config::Config, messages: Seq<ChatMessage>, stream: Option<bool>)
    ensures
        messages.len() == 0 ==> chat_check(config, messages, stream) == Some(no_messages_error()),
        messages.len() > 0 && stream == Some(true) ==> chat_check(config, messages, stream) == Some(
            streaming_error(),
        ),
        messages.len() > 0 && stream != Some(true) && has_image(messages) && !config.supports_image
            ==> chat_check(config, messages, stream) == Some(no_image_support_error()),
        messages.len() > 0 && stream != Some(true) && config.api_key is None ==> chat_check(
            config,
            messages,
            stream,
        ) is Some,
{
}

/// An image part anywhere in the conversation, in any message and at any
/// position among its parts, is held to the image checks.
pub proof fn lemma_every_image_part_checked(messages: Seq<ChatMessage>, i: int, j: int)
    requires
        0 <= i < messages.len(),
        ({
            &&& messages[i].content matches MessageContent::Parts(parts)
            &&& 0 <= j < parts.len()
            &&& parts@[j] matches ContentPart::ImageUrl { image_url }
            &&& !valid_image_input(image_url.url@)
        }),
    ensures
        has_image(messages),
        !images_valid(messages),
{
    assert(image_at(messages, i, j) is Some);
}

} // verus!
