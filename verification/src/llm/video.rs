//! The video adapter: request and reply types, and the checks and request
//! plans for creating and querying reference-mode video tasks.
use vstd::prelude::*;
use vstd::string::*;
use crate::llm::help::{help_validate_image_input, invalid_image_error, valid_image_input};
use crate::text::{decimal, is_blank, owned, push_decimal, str_is_blank};

pub mod config;

verus! {

broadcast use vstd::string::group_string_axioms;

/// A request to create a reference-mode video task.
pub struct VideoGenerationRequest {
    pub prompt: String,
    pub seconds: Option<String>,
    pub aspect_ratio: Option<String>,
    pub images: Vec<String>,
}

/// The model's reply about a video task.
pub struct VideoResponse {
    pub id: Option<String>,
    pub video_id: Option<String>,
    pub task_id: Option<String>,
    pub status: Option<String>,
    pub url: Option<String>,
    pub error: Option<serde_json::Value>,
}

/// What a checked task creation is sent with; one video is asked for.
pub struct VideoCreatePlan {
    pub url: String,
    pub api_key: String,
    pub model: String,
    pub prompt: String,
    pub seconds: String,
    pub mode: String,
    pub size: String,
    pub aspect_ratio: String,
    pub n: u32,
    pub images: Vec<String>,
}

/// What a checked task query is sent with.
pub struct VideoQueryPlan {
    pub url: String,
    pub api_key: String,
}

pub open spec fn empty_prompt_error() -> Seq<char> {
    "视频提示词不能为空"@
}

pub open spec fn no_images_error() -> Seq<char> {
    "reference 模式至少需要一张参考图片"@
}

pub open spec fn too_many_images_error(max: usize) -> Seq<char> {
    "reference 模式最多支持 "@ + decimal(max as nat) + " 张参考图片"@
}

pub open spec fn empty_video_id_error() -> Seq<char> {
    "视频任务标识不能为空"@
}

pub open spec fn missing_api_key_error() -> Seq<char> {
    "尚未配置 Agnes API key"@
}

/// Every reference image is an acceptable image input.
pub open spec fn all_valid(images: Seq<String>) -> bool {
    forall|i: int| 0 <= i < images.len() ==> #[trigger] valid_image_input(images[i]@)
}

/// The outcome of the checks of a task creation: the first failing check's
/// message, or nothing when all pass.
pub open spec fn create_check(config: config::Config, request: VideoGenerationRequest) -> Option<
    Seq<char>,
> {
    if is_blank(request.prompt@) {
        Some(empty_prompt_error())
    } else if request.images.len() == 0 {
        Some(no_images_error())
    } else if request.images.len() > config.max_reference_images {
        Some(too_many_images_error(config.max_reference_images))
    } else if !all_valid(request.images@) {
        Some(invalid_image_error())
    } else if config.api_key is None {
        Some(missing_api_key_error())
    } else {
        None
    }
}

/// The planned creation for a request that passed the checks.
pub open spec fn create_plan_matches(
    config: config::Config,
    request: VideoGenerationRequest,
    plan: VideoCreatePlan,
) -> bool {
    &&& config.api_key matches Some(k) && plan.api_key@ == k@
    &&& plan.url@ == config.base_url@ + config.create_endpoint@
    &&& plan.model@ == config.model@
    &&& plan.prompt@ == request.prompt@
    &&& plan.seconds@ == (match request.seconds {
        Some(s) => s@,
        None => config.default_seconds@,
    })
    &&& plan.mode@ == config.mode@
    &&& plan.size@ == config.size@
    &&& plan.aspect_ratio@ == (match request.aspect_ratio {
        Some(a) => a@,
        None => config.default_aspect_ratio@,
    })
    &&& plan.n == 1
    &&& plan.images == request.images
}

/// The outcome of a task creation's checks and plan: the first failing
/// check's message, else the planned request.
pub open spec fn create_video_plan_result(
    config: config::Config,
    request: VideoGenerationRequest,
    r: Result<VideoCreatePlan, String>,
) -> bool {
    match create_check(config, request) {
        Some(e) => r matches Err(m) && m@ == e,
        None => r matches Ok(plan) && create_plan_matches(config, request, plan),
    }
}

/// Checks a reference-mode task creation and plans its request: a prompt
/// that is not blank, one to the allowed number of reference images, each an
/// acceptable input, and an API key. Missing seconds and aspect ratio take
/// the adapter's defaults.
pub fn create_video_plan(current_config: &config::Config, request: VideoGenerationRequest) -> (r:
    Result<VideoCreatePlan, String>)
    ensures
        create_video_plan_result(*current_config, request, r),
{
    if str_is_blank(request.prompt.as_str()) {
        return Err(owned("视频提示词不能为空"));
    }
    if request.images.len() == 0 {
        return Err(owned("reference 模式至少需要一张参考图片"));
    }
    if request.images.len() > current_config.max_reference_images {
        let mut m = owned("reference 模式最多支持 ");
        push_decimal(&mut m, current_config.max_reference_images as u128);
        m.append(" 张参考图片");
        return Err(m);
    }
    for i in 0..request.images.len()
        invariant
            !is_blank(request.prompt@),
            request.images.len() > 0,
            request.images.len() <= current_config.max_reference_images,
            forall|k: int| 0 <= k < i ==> #[trigger] valid_image_input(request.images@[k]@),
    {
        if help_validate_image_input(request.images[i].as_str()).is_err() {
            return Err(owned("图片必须是 http(s) URL 或图片 base64 Data URI"));
        }
    }
    let api_key = match &current_config.api_key {
        Some(k) => k.clone(),
        None => {
            return Err(owned("尚未配置 Agnes API key"));
        },
    };
    let seconds = match &request.seconds {
        Some(s) => s.clone(),
        None => current_config.default_seconds.clone(),
    };
    let aspect_ratio = match &request.aspect_ratio {
        Some(a) => a.clone(),
        None => current_config.default_aspect_ratio.clone(),
    };
    let mut url = current_config.base_url.clone();
    url.append(current_config.create_endpoint.as_str());
    Ok(VideoCreatePlan {
        url,
        api_key,
        model: current_config.model.clone(),
        prompt: request.prompt,
        seconds,
        mode: current_config.mode.clone(),
        size: current_config.size.clone(),
        aspect_ratio,
        n: 1,
        images: request.images,
    })
}

/// The address of a task query: the query site and endpoint, with the task
/// and the model as query parameters (inserted as they are).
pub open spec fn query_url(config: config::Config, video_id: Seq<char>) -> Seq<char> {
    config.query_base_url@ + config.query_endpoint@ + "?video_id="@ + video_id + "&model_name="@
        + config.model@
}

/// The outcome of a task query's checks and plan: a blank identifier and a
/// missing key are refused, in that order; else the query goes to
/// [`query_url`] with the key.
pub open spec fn get_video_plan_result(
    config: config::Config,
    video_id: Seq<char>,
    r: Result<VideoQueryPlan, String>,
) -> bool {
    if is_blank(video_id) {
        r matches Err(m) && m@ == empty_video_id_error()
    } else if config.api_key is None {
        r matches Err(m) && m@ == missing_api_key_error()
    } else {
        r matches Ok(plan) && config.api_key matches Some(k) && plan.api_key@ == k@ && plan.url@
            == query_url(config, video_id)
    }
}

/// Checks a task query and plans its request: a task identifier that is
/// not blank and an API key.
pub fn get_video_plan(current_config: &config::Config, video_id: String) -> (r: Result<
    VideoQueryPlan,
    String,
>)
    ensures
        get_video_plan_result(*current_config, video_id@, r),
{
    if str_is_blank(video_id.as_str()) {
        return Err(owned("视频任务标识不能为空"));
    }
    let api_key = match &current_config.api_key {
        Some(k) => k.clone(),
        None => {
            return Err(owned("尚未配置 Agnes API key"));
        },
    };
    let mut url = current_config.query_base_url.clone();
    url.append(current_config.query_endpoint.as_str());
    url.append("?video_id=");
    url.append(video_id.as_str());
    url.append("&model_name=");
    url.append(current_config.model.as_str());
    Ok(VideoQueryPlan { url, api_key })
}

/// A task creation with a prompt that is not blank, from one up to the
/// allowed number of reference images (the limit itself included), each an
/// acceptable input, and an API key passes the checks.
pub proof fn lemma_acceptable_video_request_passes(
    config: config::Config,
    request: VideoGenerationRequest,
)
    requires
        !is_blank(request.prompt@),
        1 <= request.images.len() <= config.max_reference_images,
        forall|i: int| 0 <= i < request.images.len() ==> #[trigger] valid_image_input(request.images@[i]@),
        config.api_key is Some,
    ensures
        create_check(config, request) is None,
{
}

/// A creation is refused for a blank prompt, for no images, and for more
/// images than allowed, in that order.
pub proof fn lemma_video_request_refusals(config: config::Config, request: VideoGenerationRequest)
    ensures
        is_blank(request.prompt@) ==> create_check(config, request) == Some(empty_prompt_error()),
        !is_blank(request.prompt@) && request.images.len() == 0 ==> create_check(config, request)
            == Some(no_images_error()),
        !is_blank(request.prompt@) && request.images.len() > config.max_reference_images
            ==> create_check(config, request) == Some(
            too_many_images_error(config.max_reference_images),
        ),
{
}

/// A planned creation sends the request's prompt and images, one video,
/// the adapter's mode and size, and the request's length and aspect ratio
/// or the adapter's defaults.
pub proof fn lemma_video_plan_contents(
    config: config::Config,
    request: VideoGenerationRequest,
    plan: VideoCreatePlan,
)
    requires
        create_plan_matches(config, request, plan),
    ensures
        plan.prompt@ == request.prompt@,
        plan.images == request.images,
        plan.n == 1,
        request.seconds matches Some(s) ==> plan.seconds@ == s@,
        request.seconds is None ==> plan.seconds@ == config.default_seconds@,
        request.aspect_ratio matches Some(a) ==> plan.aspect_ratio@ == a@,
        request.aspect_ratio is None ==> plan.aspect_ratio@ == config.default_aspect_ratio@,
{
}

} // verus!
