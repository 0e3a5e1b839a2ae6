//! The compress / decompress / measure protocol of one job, as a state
//! machine. The caller performs each requested action and reports back the
//! event it led to; the machine decides what comes next.
use vstd::prelude::*;
use crate::job::CompressionJob;
use crate::measure::{CompressionResult, JobFailure, ResultView, measure_spec};

verus! {

/// Where a job stands.
#[derive(Debug, Clone, Copy, PartialEq, Eq, Structural)]
pub enum Phase {
    /// Waiting for the codec to finish compressing.
    Compressing,
    /// Waiting for the codec to finish decompressing.
    Decompressing { compress_elapsed_ms: u64 },
    /// Waiting for the sizes of the source and compressed artifacts.
    Measuring { compress_elapsed_ms: u64, decompress_elapsed_ms: u64 },
    /// The outcome has been handed out.
    Done,
}

/// What the caller observed after performing an action.
#[derive(Debug, Clone, Copy, PartialEq, Eq, Structural)]
pub enum Event {
    /// A codec invocation ended; `succeeded` is false when the codec could not
    /// be started or exited abnormally.
    CodecExited { succeeded: bool, elapsed_ms: u64 },
    /// The byte sizes of the source and compressed artifacts, where readable.
    SizesRead { source_size: Option<u64>, compressed_size: Option<u64> },
}

/// What the machine asks the caller to do next.
pub enum Action {
    /// Run the codec in compress mode on the job's source.
    RunCompress,
    /// Run the codec in decompress mode on the job's compressed artifact.
    RunDecompress,
    /// Read the sizes of the source and compressed artifacts.
    ReadSizes,
    /// The job is over, with this outcome.
    Finish(Result<CompressionResult, JobFailure>),
    /// Nothing is left to do.
    Idle,
}

/// An action, as plain values.
pub enum ActionView {
    RunCompress,
    RunDecompress,
    ReadSizes,
    Finish(Result<ResultView, JobFailure>),
    Idle,
}

impl View for Action {
    type V = ActionView;

    open spec fn view(&self) -> ActionView {
        match self {
            Action::RunCompress => ActionView::RunCompress,
            Action::RunDecompress => ActionView::RunDecompress,
            Action::ReadSizes => ActionView::ReadSizes,
            Action::Finish(Ok(r)) => ActionView::Finish(Ok(r@)),
            Action::Finish(Err(e)) => ActionView::Finish(Err(*e)),
            Action::Idle => ActionView::Idle,
        }
    }
}

/// The action that a phase waits on.
pub open spec fn pending(phase: Phase) -> ActionView {
    match phase {
        Phase::Compressing => ActionView::RunCompress,
        Phase::Decompressing { .. } => ActionView::RunDecompress,
        Phase::Measuring { .. } => ActionView::ReadSizes,
        Phase::Done => ActionView::Idle,
    }
}

/// The next phase and action of the job `name` on an event. Decompression
/// runs only after a successful compression, and sizes are read only after
/// a successful decompression; the first failure ends the job. An event
/// that the phase does not wait on changes nothing and the pending action
/// is asked for again.
pub open spec fn step(name: Seq<char>, phase: Phase, event: Event) -> (Phase, ActionView) {
    match (phase, event) {
        (Phase::Compressing, Event::CodecExited { succeeded, elapsed_ms }) => if succeeded {
            (Phase::Decompressing { compress_elapsed_ms: elapsed_ms }, ActionView::RunDecompress)
        } else {
            (Phase::Done, ActionView::Finish(Err(JobFailure::CompressFailed)))
        },
        (
            Phase::Decompressing { compress_elapsed_ms },
            Event::CodecExited { succeeded, elapsed_ms },
        ) => if succeeded {
            (
                Phase::Measuring { compress_elapsed_ms, decompress_elapsed_ms: elapsed_ms },
                ActionView::ReadSizes,
            )
        } else {
            (Phase::Done, ActionView::Finish(Err(JobFailure::DecompressFailed)))
        },
        (
            Phase::Measuring { compress_elapsed_ms, decompress_elapsed_ms },
            Event::SizesRead { source_size, compressed_size },
        ) => (
            Phase::Done,
            ActionView::Finish(
                measure_spec(
                    name,
                    source_size,
                    compressed_size,
                    compress_elapsed_ms,
                    decompress_elapsed_ms,
                ),
            ),
        ),
        _ => (phase, pending(phase)),
    }
}

/// The running state of one job.
pub struct JobRun {
    image_name: String,
    phase: Phase,
}

impl JobRun {
    pub closed spec fn name(&self) -> Seq<char> {
        self.image_name@
    }

    pub closed spec fn spec_phase(&self) -> Phase {
        self.phase
    }

    /// Starts a job; the first action is to compress.
    pub fn start(job: &CompressionJob) -> (r: (JobRun, Action))
        ensures
            r.0.name() == job.image_name@,
            r.0.spec_phase() == Phase::Compressing,
            r.1@ == ActionView::RunCompress,
    {
        (JobRun { image_name: job.image_name.clone(), phase: Phase::Compressing }, Action::RunCompress)
    }

    pub fn phase(&self) -> (r: Phase)
        ensures
            r == self.spec_phase(),
    {
        self.phase
    }

    /// Advances the job on an event and returns the next action.
    pub fn on_event(&mut self, event: Event) -> (r: Action)
        ensures
            final(self).name() == old(self).name(),
            (final(self).spec_phase(), r@) == step(old(self).name(), old(self).spec_phase(), event),
    {
        match (self.phase, event) {
            (Phase::Compressing, Event::CodecExited { succeeded, elapsed_ms }) => {
                if succeeded {
                    self.phase = Phase::Decompressing { compress_elapsed_ms: elapsed_ms };
                    Action::RunDecompress
                } else {
                    self.phase = Phase::Done;
                    Action::Finish(Err(JobFailure::CompressFailed))
                }
            },
            (
                Phase::Decompressing { compress_elapsed_ms },
                Event::CodecExited { succeeded, elapsed_ms },
            ) => {
                if succeeded {
                    self.phase = Phase::Measuring {
                        compress_elapsed_ms,
                        decompress_elapsed_ms: elapsed_ms,
                    };
                    Action::ReadSizes
                } else {
                    self.phase = Phase::Done;
                    Action::Finish(Err(JobFailure::DecompressFailed))
                }
            },
            (
                Phase::Measuring { compress_elapsed_ms, decompress_elapsed_ms },
                Event::SizesRead { source_size, compressed_size },
            ) => {
                self.phase = Phase::Done;
                Action::Finish(
                    CompressionResult::measure(
                        self.image_name.clone(),
                        source_size,
                        compressed_size,
                        compress_elapsed_ms,
                        decompress_elapsed_ms,
                    ),
                )
            },
            (Phase::Compressing, _) => Action::RunCompress,
            (Phase::Decompressing { .. }, _) => Action::RunDecompress,
            (Phase::Measuring { .. }, _) => Action::ReadSizes,
            (Phase::Done, _) => Action::Idle,
        }
    }
}

} // verus!
