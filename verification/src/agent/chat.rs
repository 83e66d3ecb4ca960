//! The chat agent.
use vstd::prelude::*;
use crate::config::{get_runtime_config, runtime_read, RuntimeConfigCache};
use crate::llm::chat::config::{derived_from, from_global, Config};
use crate::llm::chat::{chat_completion_plan, chat_completion_plan_result, ChatCallPlan, ChatMessage};

verus! {

/// The chat adapter's configuration taken from the cached configuration in
/// effect; an error when nothing was cached yet.
pub fn load(cache: &RuntimeConfigCache) -> (r: Result<Config, String>)
    ensures
        match runtime_read(cache@) {
            Ok(g) => r matches Ok(c) && derived_from(c, g),
            Err(e) => r matches Err(m) && m@ == e,
        },
{
    let global = get_runtime_config(cache)?;
    Ok(from_global(&global))
}

/// The chat agent's turn, up to the network call: the adapter's
/// configuration from the cache, then the checks and plan of a
/// non-streaming completion of the whole conversation.
pub fn run_plan(cache: &RuntimeConfigCache, messages: Vec<ChatMessage>) -> (r: Result<
    ChatCallPlan,
    String,
>)
    ensures
        match runtime_read(cache@) {
            Err(e) => r matches Err(m) && m@ == e,
            Ok(g) => exists|c: Config|
                #[trigger] derived_from(c, g) && chat_completion_plan_result(
                    c,
                    messages@,
                    Some(false),
                    r,
                ),
        },
{
    let current_config = load(cache)?;
    chat_completion_plan(&current_config, messages, Some(false))
}

} // verus!
