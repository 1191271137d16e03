//! The engine as a mathematical object: its states, and each step as a
//! function from the engine before the step to the engine after it and the
//! effects in between.

use vstd::prelude::*;
use crate::engine::effect::Diagnostic;
use crate::engine::effect::Effect;
use crate::engine::event::WindowEvent;
use crate::engine::signal::Comparison;
use crate::engine::signal::InSignal;

verus! {

/// Where the engine is in its life. Exactly one state is active at a time.
///
/// The designed cycle is `PreInit`, `InitializingPipeline`, `Running`,
/// `Stopped`, and from there `PreInit` again with new parameters.
#[derive(Debug, PartialEq, Eq)]
pub enum EngineState<W, A> {
    /// Nothing exists yet; the parameters for the window and for the pipeline wait.
    PreInit { window_attributes: W, system_pipeline_args: A },
    /// The parameters have been taken. No step leaves the engine here.
    Initializing,
    /// The window exists and the pipeline is being initialized. `completed`
    /// says whether the finished pipeline waits on the completion channel.
    InitializingPipeline { completed: bool },
    /// The pipeline runs.
    Running,
    /// The pipeline is gone, the window is kept.
    Stopped,
}

/// The engine as contracts see it.
pub struct EngineModel<W, A, S, F, O> {
    /// The state.
    pub state: EngineState<W, A>,
    /// The signals that wait on the incoming channel, oldest first, where the
    /// engine has such a channel.
    pub rx: Option<Seq<InSignal<W, A, S, F>>>,
    /// The outgoing sender, where the engine has one.
    pub tx: Option<O>,
    /// The custom signals that were queued while the engine was stopped, oldest first.
    pub queued_signals: Seq<S>,
}

/// The position of the first stop signal in `signals`, or their number where there is none.
pub open spec fn first_stop<W, A, S, F>(signals: Seq<InSignal<W, A, S, F>>) -> int
    decreases signals.len(),
{
    if signals.len() == 0 || signals.first() is Stop {
        0
    } else {
        1 + first_stop(signals.drop_first())
    }
}

/// The position of the first start signal in `signals`, or their number where there is none.
pub open spec fn first_start<W, A, S, F>(signals: Seq<InSignal<W, A, S, F>>) -> int
    decreases signals.len(),
{
    if signals.len() == 0 || signals.first() is Start {
        0
    } else {
        1 + first_start(signals.drop_first())
    }
}

/// Where `signals` has no stop before position `k`, and one at `k` unless `k`
/// is their number, `k` is the position of the first stop.
pub proof fn lemma_first_stop<W, A, S, F>(signals: Seq<InSignal<W, A, S, F>>, k: int)
    requires
        0 <= k <= signals.len(),
        forall|j: int| 0 <= j < k ==> !(#[trigger] signals[j] is Stop),
        k < signals.len() ==> signals[k] is Stop,
    ensures
        first_stop(signals) == k,
    decreases signals.len(),
{
    if k > 0 {
        let rest = signals.drop_first();
        assert forall|j: int| 0 <= j < k - 1 implies !(#[trigger] rest[j] is Stop) by {}
        lemma_first_stop(rest, k - 1);
    }
}

/// Where `signals` has no start before position `k`, and one at `k` unless `k`
/// is their number, `k` is the position of the first start.
pub proof fn lemma_first_start<W, A, S, F>(signals: Seq<InSignal<W, A, S, F>>, k: int)
    requires
        0 <= k <= signals.len(),
        forall|j: int| 0 <= j < k ==> !(#[trigger] signals[j] is Start),
        k < signals.len() ==> signals[k] is Start,
    ensures
        first_start(signals) == k,
    decreases signals.len(),
{
    if k > 0 {
        let rest = signals.drop_first();
        assert forall|j: int| 0 <= j < k - 1 implies !(#[trigger] rest[j] is Start) by {}
        lemma_first_start(rest, k - 1);
    }
}

/// The first stop of `signals` lies within them or right behind them, and no
/// signal before it is a stop.
pub proof fn lemma_first_stop_bounds<W, A, S, F>(signals: Seq<InSignal<W, A, S, F>>)
    ensures
        0 <= first_stop(signals) <= signals.len(),
        first_stop(signals) < signals.len() ==> signals[first_stop(signals)] is Stop,
        forall|j: int| 0 <= j < first_stop(signals) ==> !(#[trigger] signals[j] is Stop),
    decreases signals.len(),
{
    if signals.len() > 0 && !(signals.first() is Stop) {
        let rest = signals.drop_first();
        lemma_first_stop_bounds(rest);
        assert forall|j: int| 0 <= j < first_stop(signals) implies !(#[trigger] signals[j]
            is Stop) by {
            if j > 0 {
                assert(signals[j] == rest[j - 1]);
            }
        }
    }
}

/// What a running engine does with a signal from the channel.
pub open spec fn running_effect<W, A, S, F>(signal: InSignal<W, A, S, F>) -> Effect<W, A, S> {
    match signal {
        InSignal::Start { .. } => Effect::Report(Diagnostic::AlreadyStarted),
        InSignal::Stop => Effect::ReleasePipeline,
        InSignal::Custom { signal, .. } => Effect::PipelineSignal(signal),
    }
}

/// What a running engine does with the signals, oldest first.
pub open spec fn delivered<W, A, S, F>(signals: Seq<InSignal<W, A, S, F>>) -> Seq<Effect<W, A, S>> {
    signals.map_values(|s: InSignal<W, A, S, F>| running_effect(s))
}

/// The queued signals, handed to the pipeline oldest first.
pub open spec fn replayed<W, A, S>(queued_signals: Seq<S>) -> Seq<Effect<W, A, S>> {
    queued_signals.map_values(|s: S| Effect::<W, A, S>::PipelineSignal(s))
}

/// The queue of a stopped engine after one more signal from the channel.
pub open spec fn enqueue_one<W, A, S, F: Comparison<S>>(
    waiting: Seq<S>,
    signal: InSignal<W, A, S, F>,
) -> Seq<S> {
    match signal {
        InSignal::Custom { signal, queue } => queue.enqueue(waiting, signal),
        _ => waiting,
    }
}

/// The queue of a stopped engine after the signals, taken oldest first.
pub open spec fn enqueue_all<W, A, S, F: Comparison<S>>(
    waiting: Seq<S>,
    signals: Seq<InSignal<W, A, S, F>>,
) -> Seq<S>
    decreases signals.len(),
{
    if signals.len() == 0 {
        waiting
    } else {
        enqueue_one(enqueue_all(waiting, signals.drop_last()), signals.last())
    }
}

/// One report for each stop signal among `signals`.
pub open spec fn stop_reports<W, A, S, F>(signals: Seq<InSignal<W, A, S, F>>) -> Seq<
    Effect<W, A, S>,
> {
    signals.filter(|s: InSignal<W, A, S, F>| s is Stop).map_values(
        |s: InSignal<W, A, S, F>| Effect::Report(Diagnostic::AlreadyStopped),
    )
}

/// The effect of a close request, which comes before all others of its step.
pub open spec fn close_effects<W, A, S>(event: WindowEvent) -> Seq<Effect<W, A, S>> {
    if event is CloseRequested {
        seq![Effect::Exit]
    } else {
        Seq::empty()
    }
}

/// What a running engine does with a window event before it turns to the signals.
pub open spec fn frame_effects<W, A, S>(event: WindowEvent) -> Seq<Effect<W, A, S>> {
    if event is RedrawRequested {
        seq![
            Effect::PipelineWindowEvent,
            Effect::AccumulateWindowEvent,
            Effect::PipelineUpdate,
            Effect::CommitInput,
        ]
    } else {
        seq![Effect::PipelineWindowEvent, Effect::AccumulateWindowEvent]
    }
}

impl<W, A, S, F: Comparison<S>, O> EngineModel<W, A, S, F, O> {
    /// A stopped engine has a channel to be started through.
    pub open spec fn wf(self) -> bool {
        self.state is Stopped ==> self.rx is Some
    }

    /// The signals on the channel; none where there is no channel.
    pub open spec fn inbox(self) -> Seq<InSignal<W, A, S, F>> {
        match self.rx {
            Some(signals) => signals,
            None => Seq::empty(),
        }
    }

    /// This engine with `rest` left on its channel, where it has one.
    pub open spec fn with_inbox(self, rest: Seq<InSignal<W, A, S, F>>) -> Self {
        EngineModel {
            rx: match self.rx {
                Some(_) => Some(rest),
                None => None,
            },
            ..self
        }
    }

    /// A resume: from `PreInit` the engine launches; elsewhere it only reports.
    pub open spec fn resumed(self) -> (Self, Seq<Effect<W, A, S>>) {
        match self.state {
            EngineState::PreInit { window_attributes, system_pipeline_args } => (
                EngineModel {
                    state: EngineState::InitializingPipeline { completed: false },
                    ..self
                },
                seq![Effect::Launch { window_attributes, system_pipeline_args }],
            ),
            _ => (self, seq![Effect::Report(Diagnostic::AlreadyInitialized)]),
        }
    }

    /// The pipeline's initialization has put its result on the completion channel.
    pub open spec fn pipeline_initialized(self) -> Self {
        match self.state {
            EngineState::InitializingPipeline { .. } => EngineModel {
                state: EngineState::InitializingPipeline { completed: true },
                ..self
            },
            _ => self,
        }
    }

    /// A signal has been sent on the incoming channel.
    pub open spec fn send(self, signal: InSignal<W, A, S, F>) -> Self {
        match self.rx {
            Some(signals) => EngineModel { rx: Some(signals.push(signal)), ..self },
            None => self,
        }
    }

    /// A window event while the pipeline is being initialized.
    pub open spec fn window_event_initializing(self, event: WindowEvent, completed: bool) -> (
        Self,
        Seq<Effect<W, A, S>>,
    ) {
        if event is RedrawRequested && completed {
            (
                EngineModel { state: EngineState::Running, ..self },
                seq![Effect::AccumulateWindowEvent, Effect::AdoptPipeline, Effect::RequestRedraw],
            )
        } else {
            (self, seq![Effect::AccumulateWindowEvent])
        }
    }

    /// A window event while the pipeline runs: the event, the frame where it
    /// is a redraw, the queued signals, then the channel up to its first stop.
    pub open spec fn window_event_running(self, event: WindowEvent) -> (
        Self,
        Seq<Effect<W, A, S>>,
    ) {
        let inbox = self.inbox();
        let cut = first_stop(inbox);
        let effects = frame_effects::<W, A, S>(event) + replayed(self.queued_signals) + delivered(
            inbox.take(cut),
        );
        if cut < inbox.len() {
            (
                EngineModel {
                    state: EngineState::Stopped,
                    queued_signals: Seq::empty(),
                    ..self.with_inbox(inbox.skip(cut + 1))
                },
                effects.push(Effect::ReleasePipeline),
            )
        } else {
            (
                EngineModel { queued_signals: Seq::empty(), ..self.with_inbox(Seq::empty()) },
                effects,
            )
        }
    }

    /// A window event while the engine is stopped: the channel up to its first
    /// start. A start puts the engine into `PreInit` with its parameters and
    /// resumes it at once; without one the engine asks for a redraw, so that
    /// a later start is seen.
    pub open spec fn window_event_stopped(self) -> (Self, Seq<Effect<W, A, S>>) {
        let inbox = self.inbox();
        let cut = first_start(inbox);
        let heard = inbox.take(cut);
        let queued_signals = enqueue_all(self.queued_signals, heard);
        if cut < inbox.len() {
            let restarted = EngineModel {
                state: EngineState::PreInit {
                    window_attributes: inbox[cut]->window_attributes,
                    system_pipeline_args: inbox[cut]->system_pipeline_args,
                },
                queued_signals,
                ..self.with_inbox(inbox.skip(cut + 1))
            };
            (restarted.resumed().0, stop_reports(heard) + restarted.resumed().1)
        } else {
            (
                EngineModel { queued_signals, ..self.with_inbox(Seq::empty()) },
                stop_reports(heard).push(Effect::RequestRedraw),
            )
        }
    }

    /// A window event: a close request asks for the exit whatever the state;
    /// the rest goes by the state.
    pub open spec fn window_event(self, event: WindowEvent) -> (Self, Seq<Effect<W, A, S>>) {
        let (next, effects) = match self.state {
            EngineState::InitializingPipeline { completed } => self.window_event_initializing(
                event,
                completed,
            ),
            EngineState::Running => self.window_event_running(event),
            EngineState::Stopped => self.window_event_stopped(),
            _ => (self, seq![Effect::Report(Diagnostic::UnexpectedState)]),
        };
        (next, close_effects::<W, A, S>(event) + effects)
    }

    /// A device event: it changes no state.
    pub open spec fn device_event(self) -> Seq<Effect<W, A, S>> {
        match self.state {
            EngineState::InitializingPipeline { .. } => seq![Effect::AccumulateDeviceEvent],
            EngineState::Running => seq![
                Effect::AccumulateDeviceEvent,
                Effect::PipelineDeviceEvent,
            ],
            _ => Seq::empty(),
        }
    }
}

} // verus!
