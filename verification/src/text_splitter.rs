//! The token-aware text splitter.
//!
//! A document is tokenized once; the token sequence is then covered by
//! overlapping spans of at most `max_tokens` tokens whose starts are
//! `max_tokens - overlap_tokens` apart, and each span is decoded back
//! to text and emitted as one chunk.  The span layout is exact and
//! proved here; what the tokenizer returns for a given text is opaque
//! (see `tokenize`), so the layout holds for every tokenizer output.

use vstd::prelude::*;

use crate::encoding::decode_document;
use crate::errors::{ConfigError, TokenizeError};
use crate::tokenize;
use crate::types::{FileMap, TextChunk};
use vstd::slice::slice_subrange;
use vstd::string::*;

verus! {

/// The token position one past a span beginning at `start`: `max_tokens`
/// further on, or the end of the document, whichever comes first.
pub open spec fn span_end(start: int, max_tokens: int, n: int) -> int {
    if start + max_tokens <= n {
        start + max_tokens
    } else {
        n
    }
}

/// The span layout of a document of `n` tokens: spans start at zero,
/// successive starts are `max_tokens - overlap_tokens` apart, every
/// span runs to `span_end`, only the last span reaches `n`, and a
/// document with any tokens at all gets at least one span.
pub open spec fn spans_layout(
    spans: Seq<(usize, usize)>,
    n: int,
    max_tokens: int,
    overlap_tokens: int,
) -> bool {
    let step = max_tokens - overlap_tokens;
    &&& (spans.len() == 0 <==> n == 0)
    &&& (spans.len() > 0 ==> spans[0].0 == 0 && spans[spans.len() - 1].1 == n)
    &&& (forall|i: int|
        0 <= i < spans.len() ==> (#[trigger] spans[i]).0 < n && spans[i].1 == span_end(
            spans[i].0 as int,
            max_tokens,
            n,
        ))
    &&& (forall|i: int|
        0 <= i < spans.len() - 1 ==> (#[trigger] spans[i]).0 + step == spans[i + 1].0 && spans[
            i
        ].1 < n)
}

/// Compute the chunk spans for a document of `n` tokens.
///
/// Every span is at most `max_tokens` long, consecutive spans overlap
/// in exactly `overlap_tokens` tokens, the final span ends at `n`, and
/// a shorter final span is still emitted on its own.
pub fn chunk_spans(n: usize, max_tokens: usize, overlap_tokens: usize) -> (spans: Vec<
    (usize, usize),
>)
    requires
        0 < max_tokens,
        overlap_tokens < max_tokens,
    ensures
        spans_layout(spans@, n as int, max_tokens as int, overlap_tokens as int),
{
    let step = max_tokens - overlap_tokens;
    let mut spans: Vec<(usize, usize)> = Vec::new();
    if n == 0 {
        return spans;
    }
    let mut start: usize = 0;
    loop
        invariant_except_break
            0 < max_tokens,
            overlap_tokens < max_tokens,
            step == max_tokens - overlap_tokens,
            0 < n,
            start < n,
            spans@.len() == 0 ==> start == 0,
            spans@.len() > 0 ==> spans@[0].0 == 0,
            spans@.len() > 0 ==> spans@[spans@.len() - 1].0 + step == start && spans@[spans@.len()
                - 1].1 < n,
            forall|i: int|
                0 <= i < spans@.len() ==> (#[trigger] spans@[i]).0 < n && spans@[i].1 == span_end(
                    spans@[i].0 as int,
                    max_tokens as int,
                    n as int,
                ),
            forall|i: int|
                0 <= i < spans@.len() - 1 ==> (#[trigger] spans@[i]).0 + step == spans@[i + 1].0
                    && spans@[i].1 < n,
        ensures
            spans_layout(spans@, n as int, max_tokens as int, overlap_tokens as int),
        decreases n - start,
    {
        let end = if n - start > max_tokens {
            start + max_tokens
        } else {
            n
        };
        spans.push((start, end));
        if end == n {
            break ;
        }
        start = start + step;
    }
    spans
}

/// Whether token position `t` lies inside one of the given spans.
pub open spec fn covered_by(spans: Seq<(usize, usize)>, t: int) -> bool {
    exists|i: int| 0 <= i < spans.len() && (#[trigger] spans[i]).0 <= t < spans[i].1
}

/// Chunk coverage: the spans of a layout cover the token range
/// `[0, n)` exactly, with no gap between consecutive spans and nothing
/// beyond `n`.
pub proof fn lemma_chunk_coverage(
    spans: Seq<(usize, usize)>,
    n: int,
    max_tokens: int,
    overlap_tokens: int,
)
    requires
        0 < max_tokens,
        0 <= overlap_tokens < max_tokens,
        spans_layout(spans, n, max_tokens, overlap_tokens),
    ensures
        forall|t: int| 0 <= t < n ==> #[trigger] covered_by(spans, t),
        forall|i: int| 0 <= i < spans.len() ==> (#[trigger] spans[i]).1 <= n,
{
    assert forall|t: int| 0 <= t < n implies #[trigger] covered_by(spans, t) by {
        let j = spans.len() - 1;
        lemma_coverage_up_to(spans, n, max_tokens, overlap_tokens, j);
        assert(spans[j].1 == n);
        assert(spans.take(j + 1) =~= spans);
    }
}

/// Every token position below the end of span `j` lies inside one of
/// the first `j + 1` spans.
proof fn lemma_coverage_up_to(
    spans: Seq<(usize, usize)>,
    n: int,
    max_tokens: int,
    overlap_tokens: int,
    j: int,
)
    requires
        0 < max_tokens,
        0 <= overlap_tokens < max_tokens,
        spans_layout(spans, n, max_tokens, overlap_tokens),
        0 <= j < spans.len(),
    ensures
        forall|t: int| 0 <= t < spans[j].1 ==> #[trigger] covered_by(spans.take(j + 1), t),
    decreases j,
{
    if j == 0 {
        assert forall|t: int| 0 <= t < spans[0].1 implies #[trigger] covered_by(
            spans.take(1),
            t,
        ) by {
            assert(spans.take(1)[0].0 <= t < spans.take(1)[0].1);
        }
    } else {
        lemma_coverage_up_to(spans, n, max_tokens, overlap_tokens, j - 1);
        // The next span begins no later than where the previous ended:
        // its start lies `overlap_tokens` inside the previous span.
        assert(spans[j - 1].0 + (max_tokens - overlap_tokens) == spans[j].0);
        assert(spans[j - 1].1 == span_end(spans[j - 1].0 as int, max_tokens, n));
        assert(spans[j - 1].1 < n);
        assert(spans[j].0 <= spans[j - 1].1);
        assert forall|t: int| 0 <= t < spans[j].1 implies #[trigger] covered_by(
            spans.take(j + 1),
            t,
        ) by {
            if t < spans[j - 1].1 {
                assert(covered_by(spans.take(j), t));
                let i = choose|i: int|
                    0 <= i < spans.take(j).len() && (#[trigger] spans.take(j)[i]).0 <= t < spans.take(
                        j,
                    )[i].1;
                assert(spans.take(j + 1)[i].0 <= t < spans.take(j + 1)[i].1);
            } else {
                assert(spans.take(j + 1)[j].0 <= t < spans.take(j + 1)[j].1);
            }
        }
    }
}

/// The chunk sequence emitted for one document of `n` tokens: indices
/// count up from zero, every chunk carries the document's file id, the
/// first chunk starts at token zero, successive starts are
/// `max_tokens - overlap_tokens` apart, and only the last chunk's span
/// may reach the end of the document.
pub open spec fn chunks_layout(
    chunks: Seq<TextChunk>,
    file_id: Seq<char>,
    n: int,
    max_tokens: int,
    overlap_tokens: int,
) -> bool {
    let step = max_tokens - overlap_tokens;
    &&& (chunks.len() == 0 <==> n == 0)
    &&& (forall|i: int| 0 <= i < chunks.len() ==> (#[trigger] chunks[i]).index == i)
    &&& (forall|i: int| 0 <= i < chunks.len() ==> (#[trigger] chunks[i]).file_id@ == file_id)
    &&& (chunks.len() > 0 ==> chunks[0].start_token == 0 && chunks[chunks.len() - 1].start_token
        < n && n <= chunks[chunks.len() - 1].start_token + max_tokens)
    &&& (forall|i: int|
        0 <= i < chunks.len() - 1 ==> (#[trigger] chunks[i]).start_token + step == chunks[i
            + 1].start_token && chunks[i].start_token + max_tokens < n)
}

/// The token spans of one document's emitted chunks: each chunk spans
/// from its start offset to `span_end`.
pub open spec fn chunk_token_spans(chunks: Seq<TextChunk>, n: int, max_tokens: int) -> Seq<
    (usize, usize),
> {
    Seq::new(
        chunks.len(),
        |i: int| (chunks[i].start_token, span_end(chunks[i].start_token as int, max_tokens, n) as usize),
    )
}

/// Within one document's chunk sequence, start offsets grow by the
/// step from one chunk to the next.
proof fn lemma_chunk_starts_arithmetic(
    chunks: Seq<TextChunk>,
    file_id: Seq<char>,
    n: int,
    max_tokens: int,
    overlap_tokens: int,
    i: int,
    j: int,
)
    requires
        0 < max_tokens,
        0 <= overlap_tokens < max_tokens,
        chunks_layout(chunks, file_id, n, max_tokens, overlap_tokens),
        0 <= i <= j < chunks.len(),
    ensures
        chunks[i].start_token + (j - i) * (max_tokens - overlap_tokens) == chunks[j].start_token,
    decreases j - i,
{
    let step = max_tokens - overlap_tokens;
    if i == j {
        assert((j - i) * step == 0) by (nonlinear_arith)
            requires
                j == i,
        ;
    } else {
        lemma_chunk_starts_arithmetic(chunks, file_id, n, max_tokens, overlap_tokens, i, j - 1);
        assert((j - i) * step == (j - 1 - i) * step + step) by (nonlinear_arith);
    }
}

/// Overlap exactness in closed form: chunk `i` of a document starts at
/// token `i * (max_tokens - overlap_tokens)`.
pub proof fn lemma_chunk_start_positions(
    chunks: Seq<TextChunk>,
    file_id: Seq<char>,
    n: int,
    max_tokens: int,
    overlap_tokens: int,
)
    requires
        0 < max_tokens,
        0 <= overlap_tokens < max_tokens,
        chunks_layout(chunks, file_id, n, max_tokens, overlap_tokens),
    ensures
        forall|i: int|
            0 <= i < chunks.len() ==> (#[trigger] chunks[i]).start_token == i * (max_tokens
                - overlap_tokens),
{
    assert forall|i: int|
        0 <= i < chunks.len() implies (#[trigger] chunks[i]).start_token == i * (max_tokens
        - overlap_tokens) by {
        lemma_chunk_starts_arithmetic(chunks, file_id, n, max_tokens, overlap_tokens, 0, i);
    }
}

/// Chunk coverage, on the emitted chunks themselves: for a document of
/// `n` tokens, the union of the chunks' token spans is exactly
/// `[0, n)`: every token position lies in some chunk's span, and no
/// span runs past `n`.
pub proof fn lemma_chunks_cover_document(
    chunks: Seq<TextChunk>,
    file_id: Seq<char>,
    n: int,
    max_tokens: int,
    overlap_tokens: int,
)
    requires
        0 < max_tokens,
        0 <= overlap_tokens < max_tokens,
        n <= usize::MAX,
        chunks_layout(chunks, file_id, n, max_tokens, overlap_tokens),
    ensures
        forall|t: int|
            0 <= t < n ==> #[trigger] covered_by(chunk_token_spans(chunks, n, max_tokens), t),
        forall|i: int|
            0 <= i < chunks.len() ==> span_end((#[trigger] chunks[i]).start_token as int, max_tokens, n)
                <= n,
{
    let step = max_tokens - overlap_tokens;
    let spans = chunk_token_spans(chunks, n, max_tokens);
    let len = chunks.len() as int;
    assert forall|i: int| 0 <= i < len implies (#[trigger] spans[i]).0 < n by {
        lemma_chunk_starts_arithmetic(
            chunks,
            file_id,
            n,
            max_tokens,
            overlap_tokens,
            i,
            len - 1,
        );
        assert((len - 1 - i) * step >= 0) by (nonlinear_arith)
            requires
                len - 1 - i >= 0 && step > 0,
        ;
    }
    assert(spans_layout(spans, n, max_tokens, overlap_tokens));
    lemma_chunk_coverage(spans, n, max_tokens, overlap_tokens);
}

/// Relies on uuid's version-4 generator and its hyphenated text form
/// of 36 characters; the value is random, so nothing further is
/// promised.
#[verifier::external_body]
fn fresh_uuid_string() -> (r: String)
    ensures
        r@.len() == 36,
{
    uuid::Uuid::new_v4().to_string()
}

/// Splits documents into overlapping, token-bounded chunks.
pub struct TextSplitter {
    pub tokenizer: tokenizers::Tokenizer,
    /// Most tokens one chunk may span; positive.
    pub max_tokens: usize,
    /// Tokens shared by consecutive chunks; less than `max_tokens`.
    pub overlap_tokens: usize,
}

impl TextSplitter {
    /// A valid configuration: the cursor advances on every chunk.
    pub open spec fn wf(&self) -> bool {
        0 < self.max_tokens && self.overlap_tokens < self.max_tokens
    }

    /// Build a splitter around a tokenizer, rejecting configurations
    /// under which the splitter could not advance.
    pub fn new(tokenizer: tokenizers::Tokenizer, max_tokens: usize, overlap_tokens: usize) -> (r:
        Result<Self, ConfigError>)
        ensures
            max_tokens == 0 ==> (r matches Err(e) && e == ConfigError::ZeroMaxTokens),
            0 < max_tokens && overlap_tokens >= max_tokens ==> (r matches Err(e) && e
                == ConfigError::OverlapTooLarge),
            overlap_tokens < max_tokens ==> (r matches Ok(s) && s.wf() && s.max_tokens == max_tokens
                && s.overlap_tokens == overlap_tokens),
    {
        if max_tokens == 0 {
            Err(ConfigError::ZeroMaxTokens)
        } else if overlap_tokens >= max_tokens {
            Err(ConfigError::OverlapTooLarge)
        } else {
            Ok(Self { tokenizer, max_tokens, overlap_tokens })
        }
    }

    /// Emit the chunks of a document given as its token ids: one chunk
    /// per span of `chunk_spans`, each decoded back to text.  The
    /// layout of the emitted chunks is exact for every value of `ids`;
    /// only a failure of the tokenizer's decoder yields an error, so a
    /// document of no tokens always succeeds with no chunks.
    pub fn chunks_from_ids(&self, file_map: &FileMap, ids: &Vec<u32>) -> (r: Result<
        Vec<TextChunk>,
        TokenizeError,
    >)
        requires
            self.wf(),
        ensures
            r matches Ok(chunks) ==> chunks_layout(
                chunks@,
                file_map.file_id@,
                ids@.len() as int,
                self.max_tokens as int,
                self.overlap_tokens as int,
            ),
            ids@.len() == 0 ==> (r matches Ok(chunks) && chunks@.len() == 0),
    {
        let spans = chunk_spans(ids.len(), self.max_tokens, self.overlap_tokens);
        let ghost n = ids@.len() as int;
        let mut chunks: Vec<TextChunk> = Vec::new();
        let mut i: usize = 0;
        while i < spans.len()
            invariant
                self.wf(),
                spans_layout(spans@, n, self.max_tokens as int, self.overlap_tokens as int),
                n == ids@.len(),
                i <= spans@.len(),
                chunks@.len() == i,
                forall|j: int|
                    0 <= j < i ==> (#[trigger] chunks@[j]).index == j && chunks@[j].file_id@
                        == file_map.file_id@ && chunks@[j].start_token == spans@[j].0,
            decreases spans@.len() - i,
        {
            let (start, end) = spans[i];
            let chunk_ids = slice_subrange(ids.as_slice(), start, end);
            let text = match tokenize::decode(&self.tokenizer, chunk_ids) {
                Ok(t) => t,
                Err(e) => { return Err(e) },
            };
            let mut chunk_id = String::from_str("chunk_");
            let uuid_str = fresh_uuid_string();
            chunk_id.append(uuid_str.as_str());
            chunks.push(
                TextChunk::new(file_map.file_id.clone(), chunk_id, i, text, start),
            );
            i = i + 1;
        }
        Ok(chunks)
    }

    /// Tokenize a document's text and emit its chunks.  The token
    /// count is the tokenizer's own; the chunk layout holds for it.
    pub fn process_chunks(&self, file_map: &FileMap, full_text: &str) -> (r: Result<
        Vec<TextChunk>,
        TokenizeError,
    >)
        requires
            self.wf(),
        ensures
            r matches Ok(chunks) ==> exists|n: int|
                0 <= n && chunks_layout(
                    chunks@,
                    file_map.file_id@,
                    n,
                    self.max_tokens as int,
                    self.overlap_tokens as int,
                ),
    {
        let output = match tokenize::encode(&self.tokenizer, full_text) {
            Ok(o) => o,
            Err(e) => { return Err(e) },
        };
        let r = self.chunks_from_ids(file_map, &output.ids);
        proof {
            if r is Ok {
                let n = output.ids@.len() as int;
                assert(chunks_layout(
                    r.unwrap()@,
                    file_map.file_id@,
                    n,
                    self.max_tokens as int,
                    self.overlap_tokens as int,
                ));
            }
        }
        r
    }

    /// Split one document, given as its raw bytes: decode the bytes
    /// (UTF-8 first, EUC-KR as fallback), tokenize, and emit chunks.
    pub fn split(&self, file_map: &FileMap, contents: &[u8]) -> (r: Result<
        Vec<TextChunk>,
        TokenizeError,
    >)
        requires
            self.wf(),
        ensures
            r matches Ok(chunks) ==> exists|n: int|
                0 <= n && chunks_layout(
                    chunks@,
                    file_map.file_id@,
                    n,
                    self.max_tokens as int,
                    self.overlap_tokens as int,
                ),
    {
        let text = decode_document(contents);
        self.process_chunks(file_map, text.as_str())
    }
}

} // verus!
