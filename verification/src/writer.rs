//! The batch writer's accumulation and flush discipline.
//!
//! Embedded chunks arrive one at a time; they are accumulated into an
//! in-memory batch that is handed over for a columnar flush exactly
//! when it reaches `batch_size`, and a non-empty partial batch is
//! handed over exactly once at the end.  Converting a batch to
//! columnar rows and appending it to the store is the surrounding
//! application's business (the store is an opaque appender); what is
//! proved here is the discipline itself: no chunk is lost or
//! duplicated, order is preserved, and the batch count is exact.

use vstd::prelude::*;

use crate::errors::ConfigError;
use crate::types::EmbeddedChunk;
use vstd::arithmetic::div_mod::lemma_fundamental_div_mod_converse;

verus! {

/// All chunks of a sequence of batches, in batch order.
pub open spec fn flat_batches(batches: Seq<Seq<EmbeddedChunk>>) -> Seq<EmbeddedChunk>
    decreases batches.len(),
{
    if batches.len() == 0 {
        Seq::empty()
    } else {
        flat_batches(batches.drop_last()) + batches.last()
    }
}

/// The chunk view of a sequence of batches.
pub open spec fn batches_view(batches: Seq<Vec<EmbeddedChunk>>) -> Seq<EmbeddedChunk> {
    flat_batches(batches.map_values(|b: Vec<EmbeddedChunk>| b@))
}

proof fn lemma_flat_batches_push(batches: Seq<Seq<EmbeddedChunk>>, b: Seq<EmbeddedChunk>)
    ensures
        flat_batches(batches.push(b)) == flat_batches(batches) + b,
{
    assert(batches.push(b).drop_last() =~= batches);
    assert(batches.push(b).last() == b);
}

proof fn lemma_batches_view_push(batches: Seq<Vec<EmbeddedChunk>>, b: Vec<EmbeddedChunk>)
    ensures
        batches_view(batches.push(b)) == batches_view(batches) + b@,
{
    let f = |b: Vec<EmbeddedChunk>| b@;
    assert(batches.push(b).map_values(f) =~= batches.map_values(f).push(b@));
    lemma_flat_batches_push(batches.map_values(f), b@);
}

/// A sequence of batches each of which holds exactly `b` chunks holds
/// `len * b` chunks in all.
proof fn lemma_flat_batches_full_len(batches: Seq<Seq<EmbeddedChunk>>, b: int)
    requires
        forall|i: int| 0 <= i < batches.len() ==> (#[trigger] batches[i]).len() == b,
    ensures
        flat_batches(batches).len() == batches.len() * b,
    decreases batches.len(),
{
    if batches.len() == 0 {
    } else {
        lemma_flat_batches_full_len(batches.drop_last(), b);
        assert((batches.len() - 1) * b + b == batches.len() * b) by (nonlinear_arith);
    }
}

/// Accumulates embedded chunks and hands back full batches.
pub struct BatchWriter {
    /// Flush threshold; positive.
    pub batch_size: usize,
    /// Chunks accepted but not yet handed over; always fewer than
    /// `batch_size`.
    pub pending: Vec<EmbeddedChunk>,
}

impl BatchWriter {
    /// A valid writer: the threshold is positive and the in-memory
    /// batch is strictly below it.
    pub open spec fn wf(&self) -> bool {
        0 < self.batch_size && self.pending@.len() < self.batch_size
    }

    /// Build a writer with the given flush threshold, rejecting zero.
    pub fn new(batch_size: usize) -> (r: Result<Self, ConfigError>)
        ensures
            batch_size == 0 ==> (r matches Err(e) && e == ConfigError::ZeroBatchSize),
            0 < batch_size ==> (r matches Ok(w) && w.wf() && w.batch_size == batch_size
                && w.pending@.len() == 0),
    {
        if batch_size == 0 {
            Err(ConfigError::ZeroBatchSize)
        } else {
            Ok(Self { batch_size, pending: Vec::new() })
        }
    }

    /// Accept one chunk, in arrival order.  When the chunk fills the
    /// in-memory batch, the full batch is handed back for a flush and
    /// the in-memory batch is cleared; otherwise the chunk is only
    /// retained.
    pub fn push(&mut self, chunk: EmbeddedChunk) -> (r: Option<Vec<EmbeddedChunk>>)
        requires
            old(self).wf(),
        ensures
            final(self).wf(),
            final(self).batch_size == old(self).batch_size,
            old(self).pending@.len() + 1 == old(self).batch_size ==> (r matches Some(b) && b@
                == old(self).pending@.push(chunk) && final(self).pending@.len() == 0),
            old(self).pending@.len() + 1 < old(self).batch_size ==> (r is None
                && final(self).pending@ == old(self).pending@.push(chunk)),
    {
        self.pending.push(chunk);
        if self.pending.len() == self.batch_size {
            let mut full: Vec<EmbeddedChunk> = Vec::new();
            core::mem::swap(&mut full, &mut self.pending);
            Some(full)
        } else {
            None
        }
    }

    /// Hand back the final partial batch, non-empty exactly when any
    /// chunk is still retained.  Called once, at pipeline end.
    pub fn finish(self) -> (r: Option<Vec<EmbeddedChunk>>)
        ensures
            self.pending@.len() == 0 ==> r is None,
            self.pending@.len() > 0 ==> (r matches Some(b) && b@ == self.pending@),
    {
        if self.pending.len() > 0 {
            Some(self.pending)
        } else {
            None
        }
    }
}

/// Drive the batching discipline over a whole run's chunks, in arrival
/// order, and return the batches handed over for flushing, in flush
/// order.
///
/// Exactly `ceil(k / batch_size)` batches come out of `k` chunks; each
/// holds exactly `batch_size` chunks except possibly the last, which
/// is non-empty; and their concatenation is the input: every chunk is
/// written exactly once, in order.
pub fn write_all(chunks: Vec<EmbeddedChunk>, batch_size: usize) -> (batches: Vec<
    Vec<EmbeddedChunk>,
>)
    requires
        0 < batch_size,
    ensures
        batches_view(batches@) == chunks@,
        batches@.len() == (chunks@.len() + batch_size - 1) / (batch_size as int),
        forall|i: int|
            0 <= i < batches@.len() - 1 ==> (#[trigger] batches@[i])@.len() == batch_size,
        batches@.len() > 0 ==> 0 < batches@[batches@.len() - 1]@.len() <= batch_size,
{
    let ghost orig = chunks@;
    let mut rest = chunks;
    let mut writer = BatchWriter { batch_size, pending: Vec::new() };
    let mut batches: Vec<Vec<EmbeddedChunk>> = Vec::new();
    while rest.len() > 0
        invariant
            writer.wf(),
            writer.batch_size == batch_size,
            batches_view(batches@) + writer.pending@ + rest@ == orig,
            forall|i: int|
                0 <= i < batches@.len() ==> (#[trigger] batches@[i])@.len() == batch_size,
        decreases rest@.len(),
    {
        let c = rest.remove(0);
        let ghost pre_batches = batches@;
        let ghost pre_pending = writer.pending@;
        match writer.push(c) {
            Some(b) => {
                batches.push(b);
                proof {
                    lemma_batches_view_push(pre_batches, batches@.last());
                    assert(batches_view(batches@) + writer.pending@ + rest@ =~= orig);
                }
            },
            None => {
                proof {
                    assert(batches_view(batches@) + writer.pending@ + rest@ =~= orig);
                }
            },
        }
    }
    let ghost full_count = batches@.len() as int;
    let ghost pend = writer.pending@;
    let ghost b_int = batch_size as int;
    proof {
        lemma_flat_batches_full_len(
            batches@.map_values(|b: Vec<EmbeddedChunk>| b@),
            b_int,
        );
        assert(batches_view(batches@) + pend =~= orig);
        assert(orig.len() == full_count * b_int + pend.len());
    }
    match writer.finish() {
        Some(b) => {
            let ghost pre = batches@;
            batches.push(b);
            proof {
                let last = batches@.last();
                assert(pre.push(last) == batches@);
                lemma_batches_view_push(pre, last);
                assert(batches_view(batches@) =~= orig);
                // The run's chunk count is full_count * batch_size
                // plus a strictly positive remainder, so the batch
                // count is the ceiling full_count + 1.
                assert((full_count + 1) * b_int == full_count * b_int + b_int) by (nonlinear_arith);
                lemma_fundamental_div_mod_converse(
                    orig.len() as int + b_int - 1,
                    b_int,
                    full_count + 1,
                    pend.len() as int - 1,
                );
            }
        },
        None => {
            proof {
                assert(batches_view(batches@) =~= orig);
                // The run's chunk count is exactly full_count times
                // batch_size, so the batch count is the ceiling
                // full_count.
                lemma_fundamental_div_mod_converse(
                    orig.len() as int + b_int - 1,
                    b_int,
                    full_count,
                    b_int - 1,
                );
            }
        },
    }
    batches
}

} // verus!
