//! The host as the engine's effects see it, and the proof that the engine
//! never asks the host for what the host cannot do.

use vstd::prelude::*;
use crate::engine::effect::Diagnostic;
use crate::engine::effect::Effect;
use crate::engine::event::WindowEvent;
use crate::engine::model::delivered;
use crate::engine::model::first_start;
use crate::engine::model::first_stop;
use crate::engine::model::frame_effects;
use crate::engine::model::close_effects;
use crate::engine::model::lemma_first_stop_bounds;
use crate::engine::model::replayed;
use crate::engine::model::stop_reports;
use crate::engine::model::EngineModel;
use crate::engine::model::EngineState;
use crate::engine::signal::Comparison;

verus! {

/// What the host holds.
pub struct Host {
    /// A window exists.
    pub window: bool,
    /// An input accumulator exists.
    pub input: bool,
    /// A pipeline runs.
    pub pipeline: bool,
    /// A finished pipeline waits on the completion channel.
    pub completion: bool,
}

impl Host {
    /// The host after one effect; `None` where the host cannot perform it.
    ///
    /// A launch needs the pipeline to be gone. An adoption needs a finished
    /// pipeline on the completion channel and an accumulator to hand over. A
    /// redraw needs a window. Whatever goes to the pipeline, and a release,
    /// need a pipeline. Whatever goes to the accumulator needs an accumulator.
    pub open spec fn after<W, A, S>(self, effect: Effect<W, A, S>) -> Option<Host> {
        match effect {
            Effect::Exit | Effect::Report(_) => Some(self),
            Effect::Launch { .. } => if self.pipeline {
                None
            } else {
                Some(Host { window: true, input: true, pipeline: false, completion: false })
            },
            Effect::AccumulateWindowEvent | Effect::AccumulateDeviceEvent => if self.input {
                Some(self)
            } else {
                None
            },
            Effect::AdoptPipeline => if self.completion && self.input && !self.pipeline {
                Some(Host { pipeline: true, completion: false, ..self })
            } else {
                None
            },
            Effect::RequestRedraw => if self.window {
                Some(self)
            } else {
                None
            },
            Effect::PipelineWindowEvent
            | Effect::PipelineDeviceEvent
            | Effect::PipelineUpdate
            | Effect::PipelineSignal(_) => if self.pipeline {
                Some(self)
            } else {
                None
            },
            Effect::CommitInput => if self.pipeline && self.input {
                Some(self)
            } else {
                None
            },
            Effect::ReleasePipeline => if self.pipeline {
                Some(Host { pipeline: false, input: false, ..self })
            } else {
                None
            },
        }
    }

    /// The host after the effects, performed in their order; `None` where it
    /// cannot perform one of them.
    pub open spec fn after_all<W, A, S>(self, effects: Seq<Effect<W, A, S>>) -> Option<Host>
        decreases effects.len(),
    {
        if effects.len() == 0 {
            Some(self)
        } else {
            match self.after_all(effects.drop_last()) {
                Some(host) => host.after(effects.last()),
                None => None,
            }
        }
    }

    /// The host holds what the state of the engine takes for granted: while
    /// the pipeline is being initialized, a window and an accumulator, and the
    /// finished pipeline exactly when the engine has been told of it; while
    /// the pipeline runs, a window, an accumulator and the pipeline; while the
    /// engine is stopped, a window and no pipeline; before that, no pipeline.
    pub open spec fn serves<W, A>(self, state: EngineState<W, A>) -> bool {
        match state {
            EngineState::PreInit { .. } | EngineState::Initializing => !self.pipeline,
            EngineState::InitializingPipeline { completed } => self.window && self.input
                && !self.pipeline && self.completion == completed,
            EngineState::Running => self.window && self.input && self.pipeline,
            EngineState::Stopped => self.window && !self.pipeline,
        }
    }
}

/// Performing two runs of effects one after the other is performing them as one.
pub proof fn lemma_after_all_add<W, A, S>(
    host: Host,
    first: Seq<Effect<W, A, S>>,
    second: Seq<Effect<W, A, S>>,
)
    ensures
        host.after_all(first + second) == match host.after_all(first) {
            Some(between) => between.after_all(second),
            None => None,
        },
    decreases second.len(),
{
    if second.len() > 0 {
        assert((first + second).drop_last() == first + second.drop_last());
        lemma_after_all_add(host, first, second.drop_last());
    }
}

/// Effects that leave the host as it is: reports, and signals for a pipeline
/// that runs.
proof fn lemma_host_unchanged<W, A, S>(host: Host, effects: Seq<Effect<W, A, S>>)
    requires
        forall|i: int|
            0 <= i < effects.len() ==> (#[trigger] effects[i]) is Report || (host.pipeline
                && effects[i] is PipelineSignal),
    ensures
        host.after_all(effects) == Some(host),
    decreases effects.len(),
{
    if effects.len() > 0 {
        let earlier = effects.drop_last();
        assert forall|i: int| 0 <= i < earlier.len() implies (#[trigger] earlier[i]) is Report || (
        host.pipeline && earlier[i] is PipelineSignal) by {}
        lemma_host_unchanged(host, earlier);
    }
}

/// Performing effects and one more is performing them, then the one.
pub proof fn lemma_after_all_push<W, A, S>(
    host: Host,
    effects: Seq<Effect<W, A, S>>,
    effect: Effect<W, A, S>,
)
    ensures
        host.after_all(effects.push(effect)) == match host.after_all(effects) {
            Some(between) => between.after(effect),
            None => None,
        },
{
    assert(effects.push(effect).drop_last() == effects);
}

/// A close request, and no close request, leave the host as it is.
proof fn lemma_close_keeps_host<W, A, S>(host: Host, event: WindowEvent)
    ensures
        host.after_all(close_effects::<W, A, S>(event)) == Some(host),
{
    let none = Seq::<Effect<W, A, S>>::empty();
    lemma_after_all_push(host, none, Effect::<W, A, S>::Exit);
}

/// A host that serves a running engine performs the frame and stays as it is.
proof fn lemma_frame_keeps_host<W, A, S>(host: Host, event: WindowEvent)
    requires
        host.window && host.input && host.pipeline,
    ensures
        host.after_all(frame_effects::<W, A, S>(event)) == Some(host),
{
    let none = Seq::<Effect<W, A, S>>::empty();
    let one = none.push(Effect::<W, A, S>::PipelineWindowEvent);
    let two = one.push(Effect::<W, A, S>::AccumulateWindowEvent);
    let three = two.push(Effect::<W, A, S>::PipelineUpdate);
    let four = three.push(Effect::<W, A, S>::CommitInput);
    lemma_after_all_push(host, none, Effect::<W, A, S>::PipelineWindowEvent);
    lemma_after_all_push(host, one, Effect::<W, A, S>::AccumulateWindowEvent);
    lemma_after_all_push(host, two, Effect::<W, A, S>::PipelineUpdate);
    lemma_after_all_push(host, three, Effect::<W, A, S>::CommitInput);
    if event is RedrawRequested {
        assert(frame_effects::<W, A, S>(event) == four);
    } else {
        assert(frame_effects::<W, A, S>(event) == two);
    }
}

/// A host that serves the engine's state can perform what a resume asks for,
/// and serves the engine's state afterwards.
pub proof fn law_resume_can_be_performed<W, A, S, F: Comparison<S>, O>(
    engine: EngineModel<W, A, S, F, O>,
    host: Host,
)
    requires
        host.serves(engine.state),
    ensures
        host.after_all(engine.resumed().1) matches Some(after) && after.serves(
            engine.resumed().0.state,
        ),
{
    let effects = engine.resumed().1;
    let none = Seq::<Effect<W, A, S>>::empty();
    lemma_after_all_push(host, none, effects[0]);
}

/// A host that serves the engine's state can perform what a device event
/// asks for, and is as before afterwards.
pub proof fn law_device_event_can_be_performed<W, A, S, F: Comparison<S>, O>(
    engine: EngineModel<W, A, S, F, O>,
    host: Host,
)
    requires
        host.serves(engine.state),
    ensures
        host.after_all(engine.device_event()) == Some(host),
{
    let effects = engine.device_event();
    let none = Seq::<Effect<W, A, S>>::empty();
    let one = none.push(Effect::<W, A, S>::AccumulateDeviceEvent);
    let two = one.push(Effect::<W, A, S>::PipelineDeviceEvent);
    lemma_after_all_push(host, none, Effect::<W, A, S>::AccumulateDeviceEvent);
    lemma_after_all_push(host, one, Effect::<W, A, S>::PipelineDeviceEvent);
    if effects.len() == 2 {
        assert(effects == two);
    }
}

/// The part of [`law_window_event_can_be_performed`] for an engine whose
/// pipeline is being initialized.
proof fn lemma_initializing_can_be_performed<W, A, S, F: Comparison<S>, O>(
    engine: EngineModel<W, A, S, F, O>,
    host: Host,
    event: WindowEvent,
)
    requires
        engine.state is InitializingPipeline,
        host.serves(engine.state),
    ensures
        host.after_all(engine.window_event_initializing(event, engine.state->completed).1)
            matches Some(after) && after.serves(
            engine.window_event_initializing(event, engine.state->completed).0.state,
        ),
{
    let effects = engine.window_event_initializing(event, engine.state->completed).1;
    let none = Seq::<Effect<W, A, S>>::empty();
    let one = none.push(Effect::<W, A, S>::AccumulateWindowEvent);
    let two = one.push(Effect::<W, A, S>::AdoptPipeline);
    let three = two.push(Effect::<W, A, S>::RequestRedraw);
    lemma_after_all_push(host, none, Effect::<W, A, S>::AccumulateWindowEvent);
    lemma_after_all_push(host, one, Effect::<W, A, S>::AdoptPipeline);
    lemma_after_all_push(host, two, Effect::<W, A, S>::RequestRedraw);
    if effects.len() > 1 {
        assert(effects == three);
    }
}

/// The part of [`law_window_event_can_be_performed`] for a running engine.
proof fn lemma_running_can_be_performed<W, A, S, F: Comparison<S>, O>(
    engine: EngineModel<W, A, S, F, O>,
    host: Host,
    event: WindowEvent,
)
    requires
        engine.state is Running,
        host.serves(engine.state),
    ensures
        host.after_all(engine.window_event_running(event).1) matches Some(after) && after.serves(
            engine.window_event_running(event).0.state,
        ),
{
    let inbox = engine.inbox();
    lemma_first_stop_bounds(inbox);
    let cut = first_stop(inbox);
    let frame = frame_effects::<W, A, S>(event);
    let signals = replayed::<W, A, S>(engine.queued_signals) + delivered(inbox.take(cut));
    lemma_frame_keeps_host::<W, A, S>(host, event);
    lemma_host_unchanged(host, signals);
    lemma_after_all_add(host, frame, signals);
    let body = frame + replayed::<W, A, S>(engine.queued_signals) + delivered(inbox.take(cut));
    assert(frame + signals == body);
    if cut < inbox.len() {
        lemma_after_all_push(host, body, Effect::<W, A, S>::ReleasePipeline);
    }
}

/// The part of [`law_window_event_can_be_performed`] for a stopped engine.
proof fn lemma_stopped_can_be_performed<W, A, S, F: Comparison<S>, O>(
    engine: EngineModel<W, A, S, F, O>,
    host: Host,
)
    requires
        engine.state is Stopped,
        host.serves(engine.state),
    ensures
        host.after_all(engine.window_event_stopped().1) matches Some(after) && after.serves(
            engine.window_event_stopped().0.state,
        ),
{
    let inbox = engine.inbox();
    let cut = first_start(inbox);
    let reports = stop_reports(inbox.take(cut));
    lemma_host_unchanged(host, reports);
    if cut < inbox.len() {
        let launch = Effect::<W, A, S>::Launch {
            window_attributes: inbox[cut]->window_attributes,
            system_pipeline_args: inbox[cut]->system_pipeline_args,
        };
        assert(reports + seq![launch] == reports.push(launch));
        lemma_after_all_push(host, reports, launch);
    } else {
        lemma_after_all_push(host, reports, Effect::<W, A, S>::RequestRedraw);
    }
}

/// A host that serves the engine's state can perform every effect that a
/// window event asks for, in the order given, and serves the engine's state
/// again afterwards. The host's guards against a missing window, accumulator
/// or pipeline therefore never turn an effect away.
pub proof fn law_window_event_can_be_performed<W, A, S, F: Comparison<S>, O>(
    engine: EngineModel<W, A, S, F, O>,
    host: Host,
    event: WindowEvent,
)
    requires
        host.serves(engine.state),
    ensures
        host.after_all(engine.window_event(event).1) matches Some(after) && after.serves(
            engine.window_event(event).0.state,
        ),
{
    let close = close_effects::<W, A, S>(event);
    lemma_close_keeps_host::<W, A, S>(host, event);
    match engine.state {
        EngineState::InitializingPipeline { completed } => {
            lemma_initializing_can_be_performed(engine, host, event);
            lemma_after_all_add(host, close, engine.window_event_initializing(event, completed).1);
        },
        EngineState::Running => {
            lemma_running_can_be_performed(engine, host, event);
            lemma_after_all_add(host, close, engine.window_event_running(event).1);
        },
        EngineState::Stopped => {
            lemma_stopped_can_be_performed(engine, host);
            lemma_after_all_add(host, close, engine.window_event_stopped().1);
        },
        _ => {
            let report = Effect::<W, A, S>::Report(Diagnostic::UnexpectedState);
            let none = Seq::<Effect<W, A, S>>::empty();
            lemma_after_all_push(host, none, report);
            lemma_after_all_add(host, close, seq![report]);
        },
    }
}

/// Once the pipeline's initialization has put its result on the completion
/// channel and the engine has been told, the host serves the engine's state
/// as before.
pub proof fn law_completion_keeps_host_serving<W, A, S, F: Comparison<S>, O>(
    engine: EngineModel<W, A, S, F, O>,
    host: Host,
)
    requires
        engine.state is InitializingPipeline,
        host.serves(engine.state),
    ensures
        (Host { completion: true, ..host }).serves(engine.pipeline_initialized().state),
{
}

} // verus!
