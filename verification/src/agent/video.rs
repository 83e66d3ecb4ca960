//! The video agent.
use vstd::prelude::*;
use crate::config::{get_runtime_config, runtime_read, RuntimeConfigCache};
use crate::llm::video::config::{derived_from, from_global, Config};
use crate::llm::video::{
    create_video_plan, create_video_plan_result, get_video_plan, get_video_plan_result,
    VideoCreatePlan,
    VideoGenerationRequest, VideoQueryPlan,
};

verus! {

/// The video adapter's configuration taken from the cached configuration in
/// effect; an error when nothing was cached yet.
pub fn load(cache: &RuntimeConfigCache) -> (r: Result<Config, String>)
    ensures
        match runtime_read(cache@) {
            Ok(g) => r matches Ok(c) && derived_from(c, g),
            Err(e) => r matches Err(m) && m@ == e,
        },
{
    let global = get_runtime_config(cache)?;
    Ok(from_global(&global))
}

/// The video agent's task creation, up to the network call: the adapter's
/// configuration from the cache, then the checks and plan of a
/// reference-mode task for the gateway's prompt and images, with the
/// adapter's default length and aspect ratio.
pub fn run_plan(cache: &RuntimeConfigCache, prompt: String, images: Vec<String>) -> (r: Result<
    VideoCreatePlan,
    String,
>)
    ensures
        match runtime_read(cache@) {
            Err(e) => r matches Err(m) && m@ == e,
            Ok(g) => exists|c: Config|
                #[trigger] derived_from(c, g) && create_video_plan_result(
                    c,
                    VideoGenerationRequest { prompt, seconds: None, aspect_ratio: None, images },
                    r,
                ),
        },
{
    let current_config = load(cache)?;
    create_video_plan(
        &current_config,
        VideoGenerationRequest { prompt, seconds: None, aspect_ratio: None, images },
    )
}

/// The video agent's task query, up to the network call: the adapter's
/// configuration from the cache, then the checks and plan of the query.
pub fn get_task_plan(cache: &RuntimeConfigCache, video_id: String) -> (r: Result<
    VideoQueryPlan,
    String,
>)
    ensures
        match runtime_read(cache@) {
            Err(e) => r matches Err(m) && m@ == e,
            Ok(g) => exists|c: Config|
                #[trigger] derived_from(c, g) && get_video_plan_result(c, video_id@, r),
        },
{
    let current_config = load(cache)?;
    get_video_plan(&current_config, video_id)
}

} // verus!
