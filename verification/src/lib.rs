//! Token-aware chunk-ingestion pipeline for a vector database.
//!
//! A directory of plain-text documents is split into overlapping,
//! token-bounded chunks; each chunk receives a dense embedding from an
//! external inference model; embedded chunks are accumulated into
//! fixed-size batches and appended to a columnar output store.  This
//! crate holds the verified core: the splitter's chunk layout, the
//! embedding stage's blank-text and dimension rules, the batching and
//! flush discipline, and the coordinator's state machine.  File and
//! store I/O, the inference runtime, and progress reporting live in the
//! surrounding application.

pub mod embedder;
pub mod encoding;
pub mod errors;
pub mod files;
pub mod pipeline;
pub mod text_splitter;
pub mod tokenize;
pub mod types;
pub mod writer;
