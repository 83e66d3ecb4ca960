//! The settings summary shown to the front end.
use vstd::prelude::*;
use crate::config::EffectiveConfig;

verus! {

/// The configuration as the front end sees it: whether an API key is
/// configured, never the key itself.
pub struct SettingsInfo {
    pub api_key_configured: bool,
    pub base_url: String,
    pub model: String,
    pub image_model: String,
    pub video_model: String,
}

/// The front end's summary of the configuration in effect, without the
/// credentials.
pub fn help_to_settings_info(config: EffectiveConfig) -> (r: SettingsInfo)
    ensures
        r.api_key_configured == config.api_key is Some,
        r.base_url@ == config.base_url@,
        r.model@ == config.model@,
        r.image_model@ == config.image_model@,
        r.video_model@ == config.video_model@,
{
    SettingsInfo {
        api_key_configured: config.api_key.is_some(),
        base_url: config.base_url,
        model: config.model,
        image_model: config.image_model,
        video_model: config.video_model,
    }
}

} // verus!
