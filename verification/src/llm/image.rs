//! The image adapter: request and reply types, and the checks and request
//! plan of an image generation (from text, or from reference images).
use vstd::prelude::*;
use vstd::string::*;
use crate::llm::help::{help_validate_image_input, invalid_image_error, valid_image_input};
use crate::text::{decimal, is_blank, owned, push_decimal, str_is_blank};

pub mod config;

verus! {

broadcast use vstd::string::group_string_axioms;

/// An image generation request.
pub struct ImageGenerationRequest {
    pub prompt: String,
    pub size: String,
    pub ratio: Option<String>,
    pub images: Option<Vec<String>>,
    pub return_base64: Option<bool>,
}

/// The model's reply to an image generation.
pub struct ImageGenerationResponse {
    pub created: Option<u64>,
    pub data: Vec<ImageData>,
}

/// One generated image, by URL or in base64.
pub struct ImageData {
    pub url: Option<String>,
    pub b64_json: Option<String>,
}

/// What a checked image generation is sent with.
pub struct ImageCallPlan {
    pub url: String,
    pub api_key: String,
    pub model: String,
    pub prompt: String,
    pub size: String,
    pub ratio: String,
    pub return_base64: bool,
    pub images: Option<Vec<String>>,
    pub response_format: String,
}

pub open spec fn empty_prompt_error() -> Seq<char> {
    "图片提示词不能为空"@
}

pub open spec fn too_many_images_error(max: usize) -> Seq<char> {
    "图片参考图最多支持 "@ + decimal(max as nat) + " 张"@
}

pub open spec fn missing_api_key_error() -> Seq<char> {
    "尚未配置 Agnes API key"@
}

/// Every reference image is an acceptable image input.
pub open spec fn all_valid(images: Seq<String>) -> bool {
    forall|i: int| 0 <= i < images.len() ==> #[trigger] valid_image_input(images[i]@)
}

/// The outcome of the checks of an image generation: the first failing
/// check's message, or nothing when all pass.
pub open spec fn image_check(config: config::Config, request: ImageGenerationRequest) -> Option<
    Seq<char>,
> {
    if is_blank(request.prompt@) {
        Some(empty_prompt_error())
    } else if request.images matches Some(images) && images.len() > config.max_reference_images {
        Some(too_many_images_error(config.max_reference_images))
    } else if request.images matches Some(images) && !all_valid(images@) {
        Some(invalid_image_error())
    } else if config.api_key is None {
        Some(missing_api_key_error())
    } else {
        None
    }
}

/// The planned request for a request that passed the checks.
pub open spec fn image_plan_matches(
    config: config::Config,
    request: ImageGenerationRequest,
    plan: ImageCallPlan,
) -> bool {
    let base64 = request.return_base64 == Some(true);
    &&& config.api_key matches Some(k) && plan.api_key@ == k@
    &&& plan.url@ == config.base_url@ + config.endpoint@
    &&& plan.model@ == config.model@
    &&& plan.prompt@ == request.prompt@
    &&& plan.size@ == (if is_blank(request.size@) {
        config.default_size@
    } else {
        request.size@
    })
    &&& plan.ratio@ == (match request.ratio {
        Some(r) => r@,
        None => config.default_ratio@,
    })
    &&& plan.return_base64 == base64
    &&& plan.images == request.images
    &&& plan.response_format@ == (if base64 {
        "b64_json"@
    } else {
        "url"@
    })
}

/// Checks an image generation and plans its request: a prompt that is not
/// blank, at most the allowed number of reference images, each an
/// acceptable input, and an API key. A blank size and a missing ratio take
/// the adapter's defaults.
pub fn generate_image_plan(current_config: &config::Config, request: ImageGenerationRequest) -> (r:
    Result<ImageCallPlan, String>)
    ensures
        match image_check(*current_config, request) {
            Some(e) => r matches Err(m) && m@ == e,
            None => r matches Ok(plan) && image_plan_matches(*current_config, request, plan),
        },
{
    if str_is_blank(request.prompt.as_str()) {
        return Err(owned("图片提示词不能为空"));
    }
    let size = if str_is_blank(request.size.as_str()) {
        current_config.default_size.clone()
    } else {
        request.size.clone()
    };
    let ratio = match &request.ratio {
        Some(r) => r.clone(),
        None => current_config.default_ratio.clone(),
    };
    if let Some(images) = &request.images {
        if images.len() > current_config.max_reference_images {
            let mut m = owned("图片参考图最多支持 ");
            push_decimal(&mut m, current_config.max_reference_images as u128);
            m.append(" 张");
            return Err(m);
        }
        for i in 0..images.len()
            invariant
                !is_blank(request.prompt@),
                request.images == Some(*images),
                images.len() <= current_config.max_reference_images,
                forall|k: int| 0 <= k < i ==> #[trigger] valid_image_input(images@[k]@),
        {
            if help_validate_image_input(images[i].as_str()).is_err() {
                return Err(owned("图片必须是 http(s) URL 或图片 base64 Data URI"));
            }
        }
    }
    let api_key = match &current_config.api_key {
        Some(k) => k.clone(),
        None => {
            return Err(owned("尚未配置 Agnes API key"));
        },
    };
    let return_base64 = match request.return_base64 {
        Some(b) => b,
        None => false,
    };
    let mut url = current_config.base_url.clone();
    url.append(current_config.endpoint.as_str());
    let response_format = if return_base64 {
        owned("b64_json")
    } else {
        owned("url")
    };
    Ok(ImageCallPlan {
        url,
        api_key,
        model: current_config.model.clone(),
        prompt: request.prompt,
        size,
        ratio,
        return_base64,
        images: request.images,
        response_format,
    })
}

/// The plan asks for base64 exactly when the request says
/// `return_base64: Some(true)`; a missing or `false` setting asks for a URL.
pub proof fn lemma_base64_only_when_asked(
    config: config::Config,
    request: ImageGenerationRequest,
    plan: ImageCallPlan,
)
    requires
        image_plan_matches(config, request, plan),
    ensures
        plan.return_base64 <==> request.return_base64 == Some(true),
        request.return_base64 != Some(true) ==> plan.response_format@ == "url"@,
        request.return_base64 == Some(true) ==> plan.response_format@ == "b64_json"@,
        plan.response_format@ == "url"@ <==> !plan.return_base64,
{
    reveal_strlit("url");
    reveal_strlit("b64_json");
    assert("b64_json"@.len() != "url"@.len());
}

/// An image generation with a prompt that is not blank, at most the
/// allowed number of reference images (none at all is fine), each an
/// acceptable input, and an API key passes the checks.
pub proof fn lemma_acceptable_image_request_passes(
    config: config::Config,
    request: ImageGenerationRequest,
)
    requires
        !is_blank(request.prompt@),
        request.images matches Some(images) ==> images.len() <= config.max_reference_images
            && forall|i: int| 0 <= i < images.len() ==> #[trigger] valid_image_input(images@[i]@),
        config.api_key is Some,
    ensures
        image_check(config, request) is None,
{
}

/// A request with more reference images than allowed is refused, and so
/// is one with a blank prompt.
pub proof fn lemma_image_request_refusals(config: config::Config, request: ImageGenerationRequest)
    ensures
        is_blank(request.prompt@) ==> image_check(config, request) == Some(empty_prompt_error()),
        !is_blank(request.prompt@) ==> (request.images matches Some(images) ==> (images.len()
            > config.max_reference_images ==> image_check(config, request) == Some(
            too_many_images_error(config.max_reference_images),
        ))),
{
}

/// The plan's size and ratio are the request's, unless the size is blank or
/// the ratio missing; then they are the adapter's defaults.
pub proof fn lemma_image_defaults(
    config: config::Config,
    request: ImageGenerationRequest,
    plan: ImageCallPlan,
)
    requires
        image_plan_matches(config, request, plan),
    ensures
        !is_blank(request.size@) ==> plan.size@ == request.size@,
        is_blank(request.size@) ==> plan.size@ == config.default_size@,
        request.ratio matches Some(r) ==> plan.ratio@ == r@,
        request.ratio is None ==> plan.ratio@ == config.default_ratio@,
        plan.prompt@ == request.prompt@,
        plan.images == request.images,
{
}

} // verus!
