//! The chat adapter's own configuration.
use vstd::prelude::*;
use crate::config::{EffectiveConfig, EffectiveConfigView};
use crate::text::{clone_opt, opt_view, owned};

verus! {

broadcast use vstd::string::group_string_axioms;

/// What the chat adapter needs to call the text model.
pub struct Config {
    pub api_key: Option<String>,
    pub base_url: String,
    pub model: String,
    pub endpoint: String,
    pub supports_image: bool,
}

/// `c` is the chat adapter's configuration for the configuration in effect
/// `g`: its key, site and text model, the chat endpoint, and image support.
pub open spec fn derived_from(c: Config, g: EffectiveConfigView) -> bool {
    &&& opt_view(c.api_key) == g.api_key
    &&& c.base_url@ == g.base_url
    &&& c.model@ == g.model
    &&& c.endpoint@ == "/chat/completions"@
    &&& c.supports_image
}

/// The chat adapter's configuration taken from the configuration in
/// effect, with the chat protocol's own endpoint and its image support.
pub fn from_global(global: &EffectiveConfig) -> (r: Config)
    ensures
        derived_from(r, global@),
{
    Config {
        api_key: clone_opt(&global.api_key),
        base_url: global.base_url.clone(),
        model: global.model.clone(),
        endpoint: owned("/chat/completions"),
        supports_image: true,
    }
}

} // verus!
