//! What a step of the engine asks of its host.

use vstd::prelude::*;

verus! {

/// A misuse that the engine noticed. The step that reports one changes nothing else.
#[derive(Debug, Clone, Copy, PartialEq, Eq, Structural)]
pub enum Diagnostic {
    /// A resume arrived while the engine was already initializing or initialized.
    AlreadyInitialized,
    /// A start signal arrived while the engine was running.
    AlreadyStarted,
    /// A stop signal arrived while the engine was stopped.
    AlreadyStopped,
    /// A window event found the engine in a state that takes none.
    UnexpectedState,
}

/// One thing for the host to do. A step returns its effects in the order in
/// which they have to be performed.
#[derive(Debug, PartialEq, Eq)]
pub enum Effect<W, A, S> {
    /// Ask the event loop to end.
    Exit,
    /// Let go of any window kept from an earlier run, create a window from the
    /// attributes, start a fresh input accumulator, and start the pipeline's
    /// initialization with the window and the arguments.
    Launch { window_attributes: W, system_pipeline_args: A },
    /// Fold the window event of this step into the input accumulator.
    AccumulateWindowEvent,
    /// Fold the device event of this step into the input accumulator.
    AccumulateDeviceEvent,
    /// Take the finished pipeline and its window from the completion channel;
    /// the input accumulated so far stays as it is.
    AdoptPipeline,
    /// Ask the window for another redraw.
    RequestRedraw,
    /// Hand the window event of this step to the pipeline.
    PipelineWindowEvent,
    /// Hand the device event of this step to the pipeline.
    PipelineDeviceEvent,
    /// Let the pipeline update for this frame.
    PipelineUpdate,
    /// Close the frame in the input accumulator and open the next.
    CommitInput,
    /// Hand a custom signal to the pipeline.
    PipelineSignal(S),
    /// Drop the pipeline and the input accumulator; keep the window.
    ReleasePipeline,
    /// Log the diagnostic.
    Report(Diagnostic),
}

} // verus!
