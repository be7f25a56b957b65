use my_vector_db::encoding::decode_document;
use my_vector_db::errors::ConfigError;
use my_vector_db::files::is_supported_file;
use my_vector_db::text_splitter::{chunk_spans, TextSplitter};
use my_vector_db::tokenize::{decode, encode};
use my_vector_db::types::FileMap;

/// A word-level tokenizer splitting on whitespace: "a" -> 1, "b" -> 2.
fn word_tokenizer() -> tokenizers::Tokenizer {
    let json = r#"{
        "version": "1.0",
        "model": {
            "type": "WordLevel",
            "vocab": {"[UNK]": 0, "a": 1, "b": 2},
            "unk_token": "[UNK]"
        },
        "pre_tokenizer": {"type": "Whitespace"}
    }"#;
    tokenizers::Tokenizer::from_bytes(json.as_bytes()).expect("tokenizer json")
}

/// A tokenizer without a pre-tokenizer: any whole input that is not in
/// the vocabulary becomes the single unknown token.
fn whole_input_tokenizer() -> tokenizers::Tokenizer {
    let json = r#"{
        "version": "1.0",
        "model": {
            "type": "WordLevel",
            "vocab": {"[UNK]": 0},
            "unk_token": "[UNK]"
        }
    }"#;
    tokenizers::Tokenizer::from_bytes(json.as_bytes()).expect("tokenizer json")
}

#[test]
fn spans_scenario_thousand_tokens() {
    let spans = chunk_spans(1000, 512, 50);
    assert_eq!(spans, vec![(0, 512), (462, 974), (924, 1000)]);
}

#[test]
fn spans_small_documents() {
    assert_eq!(chunk_spans(0, 512, 50), vec![]);
    assert_eq!(chunk_spans(3, 2, 1), vec![(0, 2), (1, 3)]);
    assert_eq!(chunk_spans(5, 5, 0), vec![(0, 5)]);
    assert_eq!(chunk_spans(6, 5, 0), vec![(0, 5), (5, 6)]);
    assert_eq!(chunk_spans(1, 512, 50), vec![(0, 1)]);
}

#[test]
fn spans_overlap_exactness() {
    let spans = chunk_spans(100, 10, 3);
    for w in spans.windows(2) {
        assert_eq!(w[1].0, w[0].0 + 7);
        assert_eq!(w[0].1, w[0].0 + 10);
    }
    assert_eq!(spans.last().unwrap().1, 100);
    let final_ends: Vec<&(usize, usize)> = spans.iter().filter(|s| s.1 == 100).collect();
    assert_eq!(final_ends.len(), 1);
}

#[test]
fn spans_cover_every_token() {
    let spans = chunk_spans(37, 8, 5);
    for t in 0..37 {
        assert!(spans.iter().any(|s| s.0 <= t && t < s.1), "token {} uncovered", t);
    }
    for s in &spans {
        assert!(s.1 <= 37);
    }
}

#[test]
fn splitter_config_errors() {
    let t = word_tokenizer();
    assert_eq!(TextSplitter::new(t, 0, 0).err().unwrap(), ConfigError::ZeroMaxTokens);
    let t = word_tokenizer();
    assert_eq!(TextSplitter::new(t, 5, 5).err().unwrap(), ConfigError::OverlapTooLarge);
    let t = word_tokenizer();
    assert_eq!(TextSplitter::new(t, 5, 7).err().unwrap(), ConfigError::OverlapTooLarge);
    let t = word_tokenizer();
    assert!(TextSplitter::new(t, 512, 50).is_ok());
}

#[test]
fn split_document_layout() {
    let splitter = TextSplitter::new(word_tokenizer(), 4, 1).unwrap();
    let fm = FileMap::new("doc.txt".to_string(), "id-1".to_string());
    let chunks = splitter.process_chunks(&fm, "a a a a a a a a a a").unwrap();
    assert_eq!(chunks.len(), 3);
    for (i, c) in chunks.iter().enumerate() {
        assert_eq!(c.index, i);
        assert_eq!(c.file_id, "id-1");
        assert!(c.chunk_id.starts_with("chunk_"));
        assert_eq!(c.chunk_id.len(), 42);
        assert_eq!(c.text, "a a a a");
    }
    assert_eq!(chunks[0].start_token, 0);
    assert_eq!(chunks[1].start_token, 3);
    assert_eq!(chunks[2].start_token, 6);
}

#[test]
fn split_whitespace_document_single_chunk() {
    let splitter = TextSplitter::new(whole_input_tokenizer(), 512, 50).unwrap();
    let fm = FileMap::new("blank.txt".to_string(), "id-2".to_string());
    let chunks = splitter.split(&fm, "   ".as_bytes()).unwrap();
    assert_eq!(chunks.len(), 1);
    assert_eq!(chunks[0].index, 0);
    assert_eq!(chunks[0].start_token, 0);
}

#[test]
fn split_empty_document_no_chunks() {
    let splitter = TextSplitter::new(word_tokenizer(), 512, 50).unwrap();
    let fm = FileMap::new("empty.txt".to_string(), "id-3".to_string());
    let chunks = splitter.split(&fm, b"").unwrap();
    assert_eq!(chunks.len(), 0);
}

#[test]
fn encode_reports_tokenizer_output() {
    let t = word_tokenizer();
    let out = encode(&t, "a b a").unwrap();
    assert_eq!(out.ids, vec![1, 2, 1]);
    assert_eq!(out.tokens, vec!["a", "b", "a"]);
    assert_eq!(out.attention, vec![1, 1, 1]);
}

#[test]
fn decode_rebuilds_text() {
    let t = word_tokenizer();
    assert_eq!(decode(&t, &[1, 2]).unwrap(), "a b");
    assert_eq!(decode(&t, &[2, 2, 1]).unwrap(), "b b a");
}

#[test]
fn chunks_from_ids_layout() {
    let splitter = TextSplitter::new(word_tokenizer(), 2, 0).unwrap();
    let fm = FileMap::new("doc.txt".to_string(), "id-4".to_string());
    let chunks = splitter.chunks_from_ids(&fm, &vec![1, 1, 1, 1, 1]).unwrap();
    assert_eq!(chunks.len(), 3);
    assert_eq!(chunks[0].start_token, 0);
    assert_eq!(chunks[1].start_token, 2);
    assert_eq!(chunks[2].start_token, 4);
    assert_eq!(chunks[2].text, "a");
}

#[test]
fn decode_document_utf8() {
    assert_eq!(decode_document(b"hello"), "hello");
    assert_eq!(decode_document("한".as_bytes()), "한");
    assert_eq!(decode_document(b""), "");
}

#[test]
fn decode_document_euc_kr_fallback() {
    // EUC-KR bytes that are not valid UTF-8.
    assert_eq!(decode_document(&[0xC7, 0xD1]), "한");
    assert_eq!(decode_document(&[0xBE, 0xC8, 0xB3, 0xE7]), "안녕");
}

#[test]
fn supported_file_extensions() {
    assert!(is_supported_file("notes.txt"));
    assert!(is_supported_file("readme.md"));
    assert!(is_supported_file("dir.v2/page.old.md"));
    assert!(!is_supported_file("image.png"));
    assert!(!is_supported_file("archive.tar.gz"));
    assert!(!is_supported_file("trailing."));
    assert!(!is_supported_file(""));
    assert!(!is_supported_file("A.TXT"));
    // Without any dot the whole name is taken as the extension.
    assert!(is_supported_file("txt"));
    assert!(!is_supported_file("document"));
}
