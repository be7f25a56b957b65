//! Error taxonomy of the pipeline: configuration errors are fatal at
//! startup, stage errors are fatal to the run.

use vstd::prelude::*;

verus! {

/// A configuration that must be rejected before the pipeline starts.
#[derive(Clone, Copy, Debug, PartialEq, Eq, Structural)]
pub enum ConfigError {
    /// `max_tokens` was zero: a chunk must span at least one token.
    ZeroMaxTokens,
    /// `overlap_tokens >= max_tokens`: the splitter's cursor would
    /// never advance.
    OverlapTooLarge,
    /// `batch_size` was zero: the writer could never flush.
    ZeroBatchSize,
    /// The embedding dimensionality was zero.
    ZeroDimension,
}

/// A failure reported by the tokenizer while encoding or decoding.
#[derive(Debug)]
pub struct TokenizeError {
    pub message: String,
}

/// A failure of the embedding stage.
#[derive(Debug)]
pub enum EmbedError {
    /// The model returned a vector whose length differs from the
    /// dimensionality fixed at pipeline start.
    DimensionMismatch { expected: usize, actual: usize },
}

} // verus!
