use my_vector_db::embedder::{is_blank, EmbeddingStage};
use my_vector_db::errors::{ConfigError, EmbedError};
use my_vector_db::pipeline::{Coordinator, PipelineState, Stage};
use my_vector_db::types::{EmbeddedChunk, TextChunk};
use my_vector_db::writer::{write_all, BatchWriter};

fn chunk(i: usize) -> TextChunk {
    TextChunk::new(
        "file-1".to_string(),
        format!("chunk_{}", i),
        i,
        format!("text {}", i),
        i * 10,
    )
}

fn embedded(i: usize) -> EmbeddedChunk {
    EmbeddedChunk::new(chunk(i), vec![i as u32, 0, 1])
}

#[test]
fn blank_text_detection() {
    assert!(is_blank(""));
    assert!(is_blank("   "));
    assert!(is_blank(" \t\r\n"));
    assert!(!is_blank("a"));
    assert!(!is_blank("  a  "));
}

#[test]
fn stage_rejects_zero_dimension() {
    assert_eq!(EmbeddingStage::new(0).err().unwrap(), ConfigError::ZeroDimension);
    assert!(EmbeddingStage::new(1024).is_ok());
}

#[test]
fn whitespace_chunk_gets_zero_vector() {
    let stage = EmbeddingStage::new(8).unwrap();
    assert!(!stage.needs_model("   "));
    assert!(stage.needs_model("hello"));
    let e = stage.zero_embedded(chunk(0));
    assert_eq!(e.embedding, vec![0u32; 8]);
    assert_eq!(e.chunk_info.index, 0);
}

#[test]
fn embedding_dimension_is_enforced() {
    let stage = EmbeddingStage::new(4).unwrap();
    let ok = stage.embed_chunk(chunk(1), vec![7, 8, 9, 10]).unwrap();
    assert_eq!(ok.embedding, vec![7, 8, 9, 10]);
    let err = stage.embed_chunk(chunk(2), vec![7, 8, 9]).unwrap_err();
    assert!(matches!(err, EmbedError::DimensionMismatch { expected: 4, actual: 3 }));
}

#[test]
fn writer_rejects_zero_batch_size() {
    assert_eq!(BatchWriter::new(0).err().unwrap(), ConfigError::ZeroBatchSize);
    assert!(BatchWriter::new(100).is_ok());
}

#[test]
fn batching_exactness() {
    // Ten chunks at batch size three: batches of 3, 3, 3, 1.
    let chunks: Vec<EmbeddedChunk> = (0..10).map(embedded).collect();
    let batches = write_all(chunks, 3);
    assert_eq!(batches.len(), 4);
    let sizes: Vec<usize> = batches.iter().map(|b| b.len()).collect();
    assert_eq!(sizes, vec![3, 3, 3, 1]);

    // An exact multiple leaves no partial batch.
    let chunks: Vec<EmbeddedChunk> = (0..6).map(embedded).collect();
    assert_eq!(write_all(chunks, 3).len(), 2);

    // Fewer chunks than one batch still flush once.
    let chunks: Vec<EmbeddedChunk> = (0..2).map(embedded).collect();
    let batches = write_all(chunks, 5);
    assert_eq!(batches.len(), 1);
    assert_eq!(batches[0].len(), 2);
}

#[test]
fn row_count_conservation() {
    let chunks: Vec<EmbeddedChunk> = (0..10).map(embedded).collect();
    let expected: Vec<String> = chunks.iter().map(|c| c.chunk_info.chunk_id.clone()).collect();
    let batches = write_all(chunks, 3);
    let written: Vec<String> = batches
        .iter()
        .flat_map(|b| b.iter().map(|c| c.chunk_info.chunk_id.clone()))
        .collect();
    assert_eq!(written, expected);
}

#[test]
fn empty_run_writes_no_rows() {
    let batches = write_all(Vec::new(), 100);
    assert_eq!(batches.len(), 0);
}

#[test]
fn incremental_batching() {
    let mut w = BatchWriter::new(2).unwrap();
    assert!(w.push(embedded(0)).is_none());
    let full = w.push(embedded(1)).unwrap();
    assert_eq!(full.len(), 2);
    assert_eq!(full[0].chunk_info.index, 0);
    assert_eq!(full[1].chunk_info.index, 1);
    assert!(w.push(embedded(2)).is_none());
    let last = w.finish().unwrap();
    assert_eq!(last.len(), 1);
    assert_eq!(last[0].chunk_info.index, 2);
}

#[test]
fn finish_with_nothing_pending() {
    let mut w = BatchWriter::new(2).unwrap();
    assert!(w.push(embedded(0)).is_none());
    assert!(w.push(embedded(1)).is_some());
    assert!(w.finish().is_none());
}

#[test]
fn coordinator_completes_after_all_stages() {
    let mut c = Coordinator::new();
    assert_eq!(c.state, PipelineState::Idle);
    c.start();
    assert_eq!(c.state, PipelineState::Running);
    c.stage_finished(Stage::Splitter);
    assert_eq!(c.state, PipelineState::Running);
    c.stage_finished(Stage::Embedder);
    assert_eq!(c.state, PipelineState::Running);
    c.stage_finished(Stage::Writer);
    assert_eq!(c.state, PipelineState::Completed);
}

#[test]
fn coordinator_fails_on_first_stage_error() {
    let mut c = Coordinator::new();
    c.start();
    c.stage_finished(Stage::Splitter);
    c.stage_failed();
    assert_eq!(c.state, PipelineState::Failed);
}

#[test]
fn empty_directory_run_succeeds() {
    // No documents: every stage finishes at once and the store gets
    // zero rows.
    let mut c = Coordinator::new();
    c.start();
    c.stage_finished(Stage::Splitter);
    c.stage_finished(Stage::Embedder);
    let batches = write_all(Vec::new(), 100);
    assert_eq!(batches.len(), 0);
    c.stage_finished(Stage::Writer);
    assert_eq!(c.state, PipelineState::Completed);
}
