//! The stage state machine of the job pipeline.
//!
//! A job moves through a fixed sequence of stages; the edges of the
//! transition graph are listed in `allowed_transition`, and every queue
//! operation refuses any step that is not an edge of that graph.

use vstd::prelude::*;

verus! {

/// A labeled state in the job state machine.
#[derive(Clone, Copy, Debug, PartialEq, Eq, Structural)]
pub enum JobStage {
    Queued,
    Downloading,
    Downloaded,
    Transcribing,
    Transcribed,
    Tokenizing,
    Tokenized,
    Analyzing,
    Complete,
    Failed,
}

/// Processing status of a series.
#[derive(Clone, Copy, Debug, PartialEq, Eq, Structural)]
pub enum ProcessingStatus {
    Pending,
    Processing,
    Completed,
    Failed,
}

impl JobStage {
    /// A terminal stage is never left by a worker and never re-dequeued.
    pub open spec fn spec_is_terminal(self) -> bool {
        self == JobStage::Complete || self == JobStage::Failed
    }

    /// Whether this stage is terminal (`complete` or `failed`).
    #[verifier::when_used_as_spec(spec_is_terminal)]
    pub fn is_terminal(self) -> (r: bool)
        ensures
            r == self.spec_is_terminal(),
    {
        match self {
            JobStage::Complete => true,
            JobStage::Failed => true,
            _ => false,
        }
    }

    /// The edge set of the stage graph: these transitions and no others
    /// may ever be taken by a job.
    pub open spec fn spec_allowed_transition(from: JobStage, to: JobStage) -> bool {
        ||| (from == JobStage::Queued && to == JobStage::Downloading)
        ||| (from == JobStage::Downloading && to == JobStage::Downloaded)
        ||| (from == JobStage::Downloading && to == JobStage::Queued)
        ||| (from == JobStage::Downloading && to == JobStage::Failed)
        ||| (from == JobStage::Downloaded && to == JobStage::Transcribing)
        ||| (from == JobStage::Transcribing && to == JobStage::Transcribed)
        ||| (from == JobStage::Transcribing && to == JobStage::Downloaded)
        ||| (from == JobStage::Transcribing && to == JobStage::Failed)
        ||| (from == JobStage::Transcribed && to == JobStage::Tokenizing)
        ||| (from == JobStage::Tokenizing && to == JobStage::Tokenized)
        ||| (from == JobStage::Tokenizing && to == JobStage::Transcribed)
        ||| (from == JobStage::Tokenizing && to == JobStage::Failed)
        ||| (from == JobStage::Tokenized && to == JobStage::Analyzing)
        ||| (from == JobStage::Analyzing && to == JobStage::Complete)
        ||| (from == JobStage::Analyzing && to == JobStage::Tokenized)
        ||| (from == JobStage::Analyzing && to == JobStage::Failed)
        ||| (from == JobStage::Failed && to == JobStage::Queued)
    }

    /// Whether `from -> to` is an edge of the stage graph.
    #[verifier::when_used_as_spec(spec_allowed_transition)]
    pub fn allowed_transition(from: JobStage, to: JobStage) -> (r: bool)
        ensures
            r == JobStage::spec_allowed_transition(from, to),
    {
        match (from, to) {
            (JobStage::Queued, JobStage::Downloading) => true,
            (JobStage::Downloading, JobStage::Downloaded) => true,
            (JobStage::Downloading, JobStage::Queued) => true,
            (JobStage::Downloading, JobStage::Failed) => true,
            (JobStage::Downloaded, JobStage::Transcribing) => true,
            (JobStage::Transcribing, JobStage::Transcribed) => true,
            (JobStage::Transcribing, JobStage::Downloaded) => true,
            (JobStage::Transcribing, JobStage::Failed) => true,
            (JobStage::Transcribed, JobStage::Tokenizing) => true,
            (JobStage::Tokenizing, JobStage::Tokenized) => true,
            (JobStage::Tokenizing, JobStage::Transcribed) => true,
            (JobStage::Tokenizing, JobStage::Failed) => true,
            (JobStage::Tokenized, JobStage::Analyzing) => true,
            (JobStage::Analyzing, JobStage::Complete) => true,
            (JobStage::Analyzing, JobStage::Tokenized) => true,
            (JobStage::Analyzing, JobStage::Failed) => true,
            (JobStage::Failed, JobStage::Queued) => true,
            _ => false,
        }
    }

    /// No edge of the stage graph leaves a terminal stage toward a working
    /// stage except the operator's `failed -> queued` retry edge.
    pub proof fn lemma_terminal_stages_only_retried(from: JobStage, to: JobStage)
        requires
            from.spec_is_terminal(),
            JobStage::spec_allowed_transition(from, to),
        ensures
            from == JobStage::Failed && to == JobStage::Queued,
    {
    }
}

} // verus!
