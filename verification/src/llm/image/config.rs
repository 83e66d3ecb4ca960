//! The image adapter's own configuration.
use vstd::prelude::*;
use crate::config::{EffectiveConfig, EffectiveConfigView};
use crate::text::{clone_opt, opt_view, owned};

verus! {

broadcast use vstd::string::group_string_axioms;

/// What the image adapter needs to call the image model, with the image
/// protocol's defaults.
pub struct Config {
    pub api_key: Option<String>,
    pub base_url: String,
    pub model: String,
    pub endpoint: String,
    pub default_size: String,
    pub default_ratio: String,
    pub max_reference_images: usize,
}

/// `c` is the image adapter's configuration for the configuration in effect
/// `g`: its key, site and image model, with the image endpoint and defaults.
pub open spec fn derived_from(c: Config, g: EffectiveConfigView) -> bool {
    &&& opt_view(c.api_key) == g.api_key
    &&& c.base_url@ == g.base_url
    &&& c.model@ == g.image_model
    &&& c.endpoint@ == "/images/generations"@
    &&& c.default_size@ == "1K"@
    &&& c.default_ratio@ == "1:1"@
    &&& c.max_reference_images == 5
}

/// The image adapter's configuration taken from the configuration in effect.
pub fn from_global(global: &EffectiveConfig) -> (r: Config)
    ensures
        derived_from(r, global@),
{
    Config {
        api_key: clone_opt(&global.api_key),
        base_url: global.base_url.clone(),
        model: global.image_model.clone(),
        endpoint: owned("/images/generations"),
        default_size: owned("1K"),
        default_ratio: owned("1:1"),
        max_reference_images: 5,
    }
}

} // verus!
