//! Requests to split a text into chunks of a bounded number of tokens, and the chunks.
use vstd::prelude::*;

verus! {

/// How to split a text: the model whose tokenizer counts the tokens, the most tokens of a chunk
/// and the tokens that neighbouring chunks share.
#[derive(Debug, Clone, PartialEq, Eq)]
pub struct ChunkParams {
    pub model: String,
    pub max_tokens: u32,
    pub overlap: u32,
}

/// A request to split `text`; with `character_offsets` the chunks also report where they start
/// in characters.
#[derive(Debug, Clone, PartialEq, Eq)]
pub struct ChunkRequest {
    pub text: String,
    pub params: ChunkParams,
    pub character_offsets: bool,
}

/// A chunk of a text and where it starts, in bytes and, where asked for, in characters.
#[derive(Debug, Clone, PartialEq, Eq)]
pub struct Chunk {
    pub text: String,
    pub byte_offset: u64,
    pub character_offset: Option<u64>,
}

/// Why a text cannot be chunked with the given parameters.
#[derive(Debug, Clone, PartialEq, Eq)]
pub enum ChunkingError {
    /// Neighbouring chunks would share as many tokens as a chunk may hold, or more.
    OverlapNotBelowMaxTokens,
}

impl ChunkingError {
    /// The text of the error.
    pub fn message(&self) -> (m: &'static str)
        ensures
            m@ == "The overlap is larger than or equal to the desired chunk capacity"@,
    {
        "The overlap is larger than or equal to the desired chunk capacity"
    }
}

/// Whether a text can be chunked with `params`: the overlap must stay below the most tokens of a
/// chunk, as the splitter of `text_splitter` (`ChunkConfig::with_overlap`) demands.
pub fn validate_chunk_params(params: &ChunkParams) -> (r: Result<(), ChunkingError>)
    ensures
        r is Err <==> params.overlap >= params.max_tokens,
        r matches Err(e) ==> e == ChunkingError::OverlapNotBelowMaxTokens,
{
    if params.overlap >= params.max_tokens {
        Err(ChunkingError::OverlapNotBelowMaxTokens)
    } else {
        Ok(())
    }
}

} // verus!

