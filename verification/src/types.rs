//! The data model of the pipeline: documents, chunks, and embedded
//! chunks.
//!
//! Embedding components are carried as IEEE-754 single-precision bit
//! patterns (`u32`), so that the verified core can state exact facts
//! about them; the surrounding application converts them to and from
//! the numeric form the inference runtime and the columnar store use.
//! The bit pattern `0` encodes positive zero.

use vstd::prelude::*;

verus! {

/// A contiguous, token-bounded slice of one document's text.
#[derive(Clone, Debug)]
pub struct TextChunk {
    /// Identifier of the source document.
    pub file_id: String,
    /// Globally unique identifier of this chunk.
    pub chunk_id: String,
    /// Zero-based position of the chunk within its document.
    pub index: usize,
    /// The chunk's decoded text.
    pub text: String,
    /// Token offset of the chunk's first token in the document.
    pub start_token: usize,
}

impl TextChunk {
    pub fn new(
        file_id: String,
        chunk_id: String,
        index: usize,
        text: String,
        start_token: usize,
    ) -> (r: Self)
        ensures
            r.file_id == file_id,
            r.chunk_id == chunk_id,
            r.index == index,
            r.text == text,
            r.start_token == start_token,
    {
        Self { file_id, chunk_id, index, text, start_token }
    }
}

/// One entry of the file-id-to-path mapping built by the directory
/// scan.
#[derive(Clone, Debug)]
pub struct FileMap {
    pub file_name: String,
    pub file_id: String,
}

impl FileMap {
    pub fn new(file_name: String, file_id: String) -> (r: Self)
        ensures
            r.file_name == file_name,
            r.file_id == file_id,
    {
        Self { file_name, file_id }
    }
}

/// A chunk together with its embedding, the components given as
/// IEEE-754 single-precision bit patterns.
#[derive(Clone, Debug)]
pub struct EmbeddedChunk {
    pub chunk_info: TextChunk,
    pub embedding: Vec<u32>,
}

impl EmbeddedChunk {
    pub fn new(chunk_info: TextChunk, embedding: Vec<u32>) -> (r: Self)
        ensures
            r.chunk_info == chunk_info,
            r.embedding == embedding,
    {
        Self { chunk_info, embedding }
    }
}

} // verus!
