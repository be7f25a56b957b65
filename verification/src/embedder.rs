//! The embedding stage's own rules.
//!
//! The inference model is an external collaborator, an opaque function
//! from text to a vector of fixed dimensionality `dim`; invoking it is
//! the surrounding application's business.  What is decided here, and
//! proved: blank chunk text short-circuits to the zero vector without
//! invoking the model, and a model result whose length differs from
//! `dim` is rejected.  Embedding components are IEEE-754
//! single-precision bit patterns, so the bit pattern `0` is the zero
//! component.

use vstd::prelude::*;

use crate::errors::{ConfigError, EmbedError};
use crate::types::{EmbeddedChunk, TextChunk};
use vstd::string::*;

verus! {

/// A blank character: space, horizontal tab, line feed, vertical tab,
/// form feed, or carriage return.
pub open spec fn is_blank_char(c: char) -> bool {
    c == ' ' || c == '\t' || c == '\n' || c == '\r' || c == '\u{b}' || c == '\u{c}'
}

/// Text that trims to nothing: empty, or blank characters throughout.
pub open spec fn spec_is_blank(s: Seq<char>) -> bool {
    forall|i: int| 0 <= i < s.len() ==> is_blank_char(#[trigger] s[i])
}

/// Whether the given text is empty or consists of blank characters
/// only.
pub fn is_blank(text: &str) -> (r: bool)
    ensures
        r == spec_is_blank(text@),
{
    let n = text.unicode_len();
    let mut i: usize = 0;
    while i < n
        invariant
            i <= n,
            n == text@.len(),
            forall|j: int| 0 <= j < i ==> is_blank_char(#[trigger] text@[j]),
        decreases n - i,
    {
        let c = text.get_char(i);
        if !(c == ' ' || c == '\t' || c == '\n' || c == '\r' || c == '\u{b}' || c == '\u{c}') {
            return false;
        }
        i = i + 1;
    }
    true
}

/// The decisions of the embedding stage, for a model of output
/// dimensionality `dim`.
pub struct EmbeddingStage {
    /// Dimensionality of every embedding of the run; positive, fixed
    /// once at pipeline start.
    pub dim: usize,
}

impl EmbeddingStage {
    /// A valid stage: the dimensionality is positive.
    pub open spec fn wf(&self) -> bool {
        0 < self.dim
    }

    /// Fix the run's embedding dimensionality, rejecting zero.
    pub fn new(dim: usize) -> (r: Result<Self, ConfigError>)
        ensures
            dim == 0 ==> (r matches Err(e) && e == ConfigError::ZeroDimension),
            0 < dim ==> (r matches Ok(s) && s.wf() && s.dim == dim),
    {
        if dim == 0 {
            Err(ConfigError::ZeroDimension)
        } else {
            Ok(Self { dim })
        }
    }

    /// Whether the model must be invoked for this chunk text: blank
    /// text short-circuits to the zero vector instead.
    pub fn needs_model(&self, text: &str) -> (r: bool)
        ensures
            r == !spec_is_blank(text@),
    {
        !is_blank(text)
    }

    /// The zero vector of the run's dimensionality: every component is
    /// the zero bit pattern.
    pub fn zero_embedding(&self) -> (r: Vec<u32>)
        ensures
            r@.len() == self.dim,
            forall|i: int| 0 <= i < r@.len() ==> r@[i] == 0u32,
    {
        let mut v: Vec<u32> = Vec::new();
        let mut i: usize = 0;
        while i < self.dim
            invariant
                i <= self.dim,
                v@.len() == i,
                forall|j: int| 0 <= j < v@.len() ==> v@[j] == 0u32,
            decreases self.dim - i,
        {
            v.push(0u32);
            i = i + 1;
        }
        v
    }

    /// Embed a degenerate (blank) chunk without the model: its
    /// embedding is the zero vector of the run's dimensionality.
    pub fn zero_embedded(&self, chunk: TextChunk) -> (r: EmbeddedChunk)
        ensures
            r.chunk_info == chunk,
            r.embedding@.len() == self.dim,
            forall|i: int| 0 <= i < r.embedding@.len() ==> r.embedding@[i] == 0u32,
    {
        let embedding = self.zero_embedding();
        EmbeddedChunk::new(chunk, embedding)
    }

    /// Attach a model-produced embedding to its chunk, rejecting a
    /// vector whose length differs from the dimensionality fixed at
    /// pipeline start.
    pub fn embed_chunk(&self, chunk: TextChunk, embedding: Vec<u32>) -> (r: Result<
        EmbeddedChunk,
        EmbedError,
    >)
        ensures
            embedding@.len() == self.dim ==> (r matches Ok(e) && e.chunk_info == chunk
                && e.embedding == embedding),
            embedding@.len() != self.dim ==> (r matches Err(e) && e matches
                EmbedError::DimensionMismatch { expected, actual } && expected == self.dim
                && actual == embedding@.len()),
    {
        if embedding.len() != self.dim {
            Err(EmbedError::DimensionMismatch { expected: self.dim, actual: embedding.len() })
        } else {
            Ok(EmbeddedChunk::new(chunk, embedding))
        }
    }
}

} // verus!
