//! The coordinator's view of one pipeline run.
//!
//! A run moves from `Idle` to `Running` when the stages are started,
//! and from `Running` to exactly one of `Completed` or `Failed`:
//! `Completed` only once the splitting, embedding and writing stages
//! have all finished, `Failed` as soon as any stage reports an error.
//! Spawning threads, moving chunks over channels and joining the
//! stages is the surrounding application's business; the decisions it
//! takes are the functions here.

use vstd::prelude::*;

verus! {

/// The lifecycle of one pipeline run.
#[derive(Clone, Copy, Debug, PartialEq, Eq, Structural)]
pub enum PipelineState {
    Idle,
    Running,
    Completed,
    Failed,
}

/// The three stages of a run.
#[derive(Clone, Copy, Debug, PartialEq, Eq, Structural)]
pub enum Stage {
    Splitter,
    Embedder,
    Writer,
}

/// Tracks which stages of a run have finished and decides the run's
/// outcome.
pub struct Coordinator {
    pub state: PipelineState,
    pub splitter_done: bool,
    pub embedder_done: bool,
    pub writer_done: bool,
}

impl Coordinator {
    /// All three stages have finished.
    pub open spec fn all_done(&self) -> bool {
        self.splitter_done && self.embedder_done && self.writer_done
    }

    /// The run can change no further.
    pub open spec fn is_terminal(&self) -> bool {
        self.state == PipelineState::Completed || self.state == PipelineState::Failed
    }

    /// A consistent coordinator: nothing has finished before the run
    /// starts, and a completed run saw every stage finish.
    pub open spec fn wf(&self) -> bool {
        &&& (self.state == PipelineState::Idle ==> !self.splitter_done && !self.embedder_done
            && !self.writer_done)
        &&& (self.state == PipelineState::Completed ==> self.all_done())
    }

    /// A fresh run: idle, no stage finished.
    pub fn new() -> (r: Self)
        ensures
            r.wf(),
            r.state == PipelineState::Idle,
            !r.splitter_done,
            !r.embedder_done,
            !r.writer_done,
    {
        Self {
            state: PipelineState::Idle,
            splitter_done: false,
            embedder_done: false,
            writer_done: false,
        }
    }

    /// Start the run: the stages are being spawned.
    pub fn start(&mut self)
        requires
            old(self).wf(),
            old(self).state == PipelineState::Idle,
        ensures
            final(self).wf(),
            final(self).state == PipelineState::Running,
            !final(self).splitter_done,
            !final(self).embedder_done,
            !final(self).writer_done,
    {
        self.state = PipelineState::Running;
    }

    /// Record that one stage finished without error.  The run
    /// completes exactly when the last of the three finishes.
    pub fn stage_finished(&mut self, stage: Stage)
        requires
            old(self).wf(),
            old(self).state == PipelineState::Running,
        ensures
            final(self).wf(),
            final(self).splitter_done == (old(self).splitter_done || stage == Stage::Splitter),
            final(self).embedder_done == (old(self).embedder_done || stage == Stage::Embedder),
            final(self).writer_done == (old(self).writer_done || stage == Stage::Writer),
            final(self).all_done() ==> final(self).state == PipelineState::Completed,
            !final(self).all_done() ==> final(self).state == PipelineState::Running,
    {
        match stage {
            Stage::Splitter => {
                self.splitter_done = true;
            },
            Stage::Embedder => {
                self.embedder_done = true;
            },
            Stage::Writer => {
                self.writer_done = true;
            },
        }
        if self.splitter_done && self.embedder_done && self.writer_done {
            self.state = PipelineState::Completed;
        }
    }

    /// Record the first error any stage reports: the whole run fails,
    /// whatever the other stages still do.
    pub fn stage_failed(&mut self)
        requires
            old(self).wf(),
            old(self).state == PipelineState::Running,
        ensures
            final(self).wf(),
            final(self).state == PipelineState::Failed,
            final(self).splitter_done == old(self).splitter_done,
            final(self).embedder_done == old(self).embedder_done,
            final(self).writer_done == old(self).writer_done,
    {
        self.state = PipelineState::Failed;
    }
}

} // verus!
