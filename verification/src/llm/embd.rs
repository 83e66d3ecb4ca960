//! The local embedding model's description.
use vstd::prelude::*;

verus! {

/// The embedding model shipped with the application.
pub const MODEL_NAME: &'static str = "bge-small-zh-v1.5";

/// The length of its vectors.
pub const MODEL_DIMENSION: u32 = 512;

/// The longest input it takes, in tokens.
pub const MODEL_MAX_TOKENS: u32 = 512;

/// Whether the shipped model is quantized (INT8).
pub const MODEL_QUANTIZED: bool = true;

/// What the local embedding model can do.
pub struct EmbeddingInfo {
    pub model: &'static str,
    pub dimension: u32,
    pub max_tokens: u32,
    pub quantized: bool,
}

/// The fixed description of the built-in embedding model.
pub fn embedding_info() -> (r: EmbeddingInfo)
    ensures
        r.model@ == "bge-small-zh-v1.5"@,
        r.dimension == 512,
        r.max_tokens == 512,
        r.quantized,
{
    EmbeddingInfo {
        model: MODEL_NAME,
        dimension: MODEL_DIMENSION,
        max_tokens: MODEL_MAX_TOKENS,
        quantized: MODEL_QUANTIZED,
    }
}

} // verus!
