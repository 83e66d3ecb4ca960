//! The video adapter's own configuration, for the reference mode.
use vstd::prelude::*;
use crate::config::{EffectiveConfig, EffectiveConfigView};
use crate::text::{clone_opt, opt_view, owned};

verus! {

broadcast use vstd::string::group_string_axioms;

/// What the video adapter needs to create and query reference-mode tasks.
pub struct Config {
    pub api_key: Option<String>,
    pub base_url: String,
    pub query_base_url: String,
    pub model: String,
    pub create_endpoint: String,
    pub query_endpoint: String,
    pub mode: String,
    pub size: String,
    pub default_seconds: String,
    pub default_aspect_ratio: String,
    pub max_reference_images: usize,
}

/// `c` is the video adapter's configuration for the configuration in
/// effect `g`: its key, site and video model, with the reference mode's
/// fixed query site, endpoints, size and defaults.
pub open spec fn derived_from(c: Config, g: EffectiveConfigView) -> bool {
    &&& opt_view(c.api_key) == g.api_key
    &&& c.base_url@ == g.base_url
    &&& c.query_base_url@ == "https://api.agnes-ai.cn"@
    &&& c.model@ == g.video_model
    &&& c.create_endpoint@ == "/videos"@
    &&& c.query_endpoint@ == "/agnesapi"@
    &&& c.mode@ == "reference"@
    &&& c.size@ == "720P"@
    &&& c.default_seconds@ == "5"@
    &&& c.default_aspect_ratio@ == "16:9"@
    &&& c.max_reference_images == 5
}

/// The video adapter's configuration taken from the configuration in effect.
pub fn from_global(global: &EffectiveConfig) -> (r: Config)
    ensures
        derived_from(r, global@),
{
    Config {
        api_key: clone_opt(&global.api_key),
        base_url: global.base_url.clone(),
        query_base_url: owned("https://api.agnes-ai.cn"),
        model: global.video_model.clone(),
        create_endpoint: owned("/videos"),
        query_endpoint: owned("/agnesapi"),
        mode: owned("reference"),
        size: owned("720P"),
        default_seconds: owned("5"),
        default_aspect_ratio: owned("16:9"),
        max_reference_images: 5,
    }
}

} // verus!
