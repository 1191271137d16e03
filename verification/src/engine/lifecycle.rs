//! The engine itself: the state machine that the platform's callbacks drive.

use vstd::prelude::*;
use std::collections::VecDeque;
use crate::engine::effect::Diagnostic;
use crate::engine::effect::Effect;
use crate::engine::event::WindowEvent;
use crate::engine::model::delivered;
use crate::engine::model::enqueue_all;
use crate::engine::model::first_start;
use crate::engine::model::first_stop;
use crate::engine::model::lemma_first_start;
use crate::engine::model::lemma_first_stop;
use crate::engine::model::replayed;
use crate::engine::model::stop_reports;
use crate::engine::model::EngineModel;
use crate::engine::model::EngineState;
use crate::engine::signal::kept;
use crate::engine::signal::replace_in;
use crate::engine::signal::Comparison;
use crate::engine::signal::InSignal;
use crate::engine::signal::QueueBehavior;

verus! {

/// The engine. It owns its state, the waiting end of the control channel and
/// the queue of signals that arrived while it was stopped.
///
/// The host calls [`Engine::resumed`], [`Engine::window_event`] and
/// [`Engine::device_event`] from the platform's callbacks of the same names,
/// and performs the effects that each returns, in their order.
pub struct Engine<W, A, S, F, O> {
    rx: Option<VecDeque<InSignal<W, A, S, F>>>,
    tx: Option<O>,
    queued_signals: VecDeque<S>,
    state: EngineState<W, A>,
}

impl<W, A, S, F, O> View for Engine<W, A, S, F, O> {
    type V = EngineModel<W, A, S, F, O>;

    closed spec fn view(&self) -> EngineModel<W, A, S, F, O> {
        EngineModel {
            state: self.state,
            rx: match self.rx {
                Some(signals) => Some(signals@),
                None => None,
            },
            tx: self.tx,
            queued_signals: self.queued_signals@,
        }
    }
}

/// Hands the queued signals to the pipeline, oldest first, and leaves the queue empty.
fn replay<W, A, S>(queued_signals: &mut VecDeque<S>, effects: &mut Vec<Effect<W, A, S>>)
    ensures
        final(queued_signals)@ == Seq::<S>::empty(),
        final(effects)@ == old(effects)@ + replayed::<W, A, S>(old(queued_signals)@),
{
    let ghost waiting = queued_signals@;
    let ghost base = effects@;
    let n = queued_signals.len();
    let mut i: usize = 0;
    while i < n
        invariant
            n == waiting.len(),
            i <= n,
            queued_signals@ == waiting.skip(i as int),
            effects@ == base + replayed::<W, A, S>(waiting.take(i as int)),
        decreases n - i,
    {
        let next = queued_signals.pop_front();
        if let Some(signal) = next {
            effects.push(Effect::PipelineSignal(signal));
        }
        i = i + 1;
    }
}

/// Takes the signals from the channel of a running engine, oldest first, up to
/// the first stop, and says whether there was one.
fn drain_running<W, A, S, F>(
    rx: &mut VecDeque<InSignal<W, A, S, F>>,
    effects: &mut Vec<Effect<W, A, S>>,
) -> (stopped: bool)
    ensures
        0 <= first_stop(old(rx)@) <= old(rx)@.len(),
        stopped == (first_stop(old(rx)@) < old(rx)@.len()),
        stopped ==> final(rx)@ == old(rx)@.skip(first_stop(old(rx)@) + 1) && final(effects)@
            == (old(effects)@ + delivered(old(rx)@.take(first_stop(old(rx)@)))).push(
            Effect::ReleasePipeline,
        ),
        !stopped ==> final(rx)@ == Seq::<InSignal<W, A, S, F>>::empty() && final(effects)@ == old(
            effects,
        )@ + delivered(old(rx)@.take(first_stop(old(rx)@))),
{
    let ghost signals = rx@;
    let ghost base = effects@;
    let n = rx.len();
    let mut i: usize = 0;
    while i < n
        invariant
            n == signals.len(),
            i <= n,
            signals == old(rx)@,
            base == old(effects)@,
            rx@ == signals.skip(i as int),
            effects@ == base + delivered(signals.take(i as int)),
            forall|j: int| 0 <= j < i ==> !(#[trigger] signals[j] is Stop),
        decreases n - i,
    {
        let next = rx.pop_front();
        match next {
            Some(InSignal::Stop) => {
                proof {
                    lemma_first_stop(signals, i as int);
                }
                effects.push(Effect::ReleasePipeline);
                return true;
            },
            Some(InSignal::Start { .. }) => {
                effects.push(Effect::Report(Diagnostic::AlreadyStarted));
            },
            Some(InSignal::Custom { signal, .. }) => {
                effects.push(Effect::PipelineSignal(signal));
            },
            None => {},
        }
        i = i + 1;
    }
    proof {
        lemma_first_stop(signals, n as int);
    }
    false
}

/// Removes the waiting signals that `new` replaces, then appends `new`.
fn replace_matching<S, F: Comparison<S>>(queued_signals: &mut VecDeque<S>, p: F, new: S)
    ensures
        final(queued_signals)@ == replace_in(old(queued_signals)@, p, new),
{
    let ghost waiting = queued_signals@;
    let n = queued_signals.len();
    let mut i: usize = 0;
    while i < n
        invariant
            n == waiting.len(),
            i <= n,
            queued_signals@ == waiting.skip(i as int) + kept(waiting.take(i as int), p, new),
        decreases n - i,
    {
        let next = queued_signals.pop_front();
        if let Some(existing) = next {
            let replaced = p.replaces(&new, &existing);
            proof {
                reveal(Seq::filter);
                assert(waiting.take(i + 1).drop_last() == waiting.take(i as int));
            }
            if !replaced {
                queued_signals.push_back(existing);
            }
        }
        i = i + 1;
    }
    proof {
        assert(waiting.take(n as int) == waiting);
    }
    queued_signals.push_back(new);
}

/// The reports of `signals` and of one signal more.
proof fn lemma_stop_reports_push<W, A, S, F>(
    signals: Seq<InSignal<W, A, S, F>>,
    signal: InSignal<W, A, S, F>,
)
    ensures
        stop_reports(signals.push(signal)) == if signal is Stop {
            stop_reports(signals).push(Effect::Report(Diagnostic::AlreadyStopped))
        } else {
            stop_reports(signals)
        },
{
    reveal(Seq::filter);
    assert(signals.push(signal).drop_last() == signals);
}

/// Takes the signals from the channel of a stopped engine, oldest first, up to
/// the first start, whose parameters it returns. Custom signals go to the
/// queue as their behaviour says.
fn drain_stopped<W, A, S, F: Comparison<S>>(
    rx: &mut VecDeque<InSignal<W, A, S, F>>,
    queued_signals: &mut VecDeque<S>,
    effects: &mut Vec<Effect<W, A, S>>,
) -> (start: Option<(W, A)>)
    ensures
        final(queued_signals)@ == enqueue_all(
            old(queued_signals)@,
            old(rx)@.take(first_start(old(rx)@)),
        ),
        final(effects)@ == old(effects)@ + stop_reports(old(rx)@.take(first_start(old(rx)@))),
        0 <= first_start(old(rx)@) <= old(rx)@.len(),
        start is Some == (first_start(old(rx)@) < old(rx)@.len()),
        start matches Some((window_attributes, system_pipeline_args)) ==> {
            &&& old(rx)@[first_start(old(rx)@)] == (InSignal::<W, A, S, F>::Start {
                window_attributes,
                system_pipeline_args,
            })
            &&& final(rx)@ == old(rx)@.skip(first_start(old(rx)@) + 1)
        },
        start is None ==> final(rx)@ == Seq::<InSignal<W, A, S, F>>::empty(),
{
    let ghost signals = rx@;
    let ghost waiting = queued_signals@;
    let ghost base = effects@;
    let n = rx.len();
    let mut i: usize = 0;
    while i < n
        invariant
            signals == old(rx)@,
            waiting == old(queued_signals)@,
            base == old(effects)@,
            n == signals.len(),
            i <= n,
            rx@ == signals.skip(i as int),
            queued_signals@ == enqueue_all(waiting, signals.take(i as int)),
            effects@ == base + stop_reports(signals.take(i as int)),
            forall|j: int| 0 <= j < i ==> !(#[trigger] signals[j] is Start),
        decreases n - i,
    {
        let next = rx.pop_front();
        proof {
            assert(signals.take(i + 1) == signals.take(i as int).push(signals[i as int]));
            assert(signals.take(i + 1).drop_last() == signals.take(i as int));
            lemma_stop_reports_push(signals.take(i as int), signals[i as int]);
        }
        match next {
            Some(InSignal::Start { window_attributes, system_pipeline_args }) => {
                proof {
                    lemma_first_start(signals, i as int);
                }
                return Some((window_attributes, system_pipeline_args));
            },
            Some(InSignal::Stop) => {
                effects.push(Effect::Report(Diagnostic::AlreadyStopped));
            },
            Some(InSignal::Custom { signal, queue }) => {
                match queue {
                    QueueBehavior::Replace(p) => {
                        replace_matching(queued_signals, p, signal);
                    },
                    QueueBehavior::Queued => {
                        queued_signals.push_back(signal);
                    },
                    QueueBehavior::Ignored => {},
                }
            },
            None => {},
        }
        i = i + 1;
    }
    proof {
        lemma_first_start(signals, n as int);
    }
    None
}

impl<W, A, S, F: Comparison<S>, O> Engine<W, A, S, F, O> {
    /// The engine is well formed: see [`EngineModel::wf`].
    pub open spec fn wf(&self) -> bool {
        self@.wf()
    }

    /// An engine in `PreInit`, without channels and with nothing queued.
    pub fn new(window_attributes: W, system_pipeline_args: A) -> (engine: Self)
        ensures
            engine.wf(),
            engine@ == (EngineModel::<W, A, S, F, O> {
                state: EngineState::PreInit { window_attributes, system_pipeline_args },
                rx: None,
                tx: None,
                queued_signals: Seq::empty(),
            }),
    {
        Engine {
            rx: None,
            tx: None,
            queued_signals: VecDeque::new(),
            state: EngineState::PreInit { window_attributes, system_pipeline_args },
        }
    }

    /// Gives the engine its incoming channel, on which `rx` already waits.
    pub fn with_rx(self, rx: VecDeque<InSignal<W, A, S, F>>) -> (engine: Self)
        ensures
            engine.wf(),
            engine@ == (EngineModel { rx: Some(rx@), ..self@ }),
    {
        let mut engine = self;
        engine.rx = Some(rx);
        engine
    }

    /// Gives the engine its outgoing sender.
    pub fn with_tx(self, tx: O) -> (engine: Self)
        ensures
            engine.wf() == self.wf(),
            engine@ == (EngineModel { tx: Some(tx), ..self@ }),
    {
        let mut engine = self;
        engine.tx = Some(tx);
        engine
    }

    /// The state.
    pub fn state(&self) -> (state: &EngineState<W, A>)
        ensures
            *state == self@.state,
    {
        &self.state
    }

    /// The outgoing sender, for the host to hand to the pipeline.
    pub fn tx(&self) -> (tx: Option<&O>)
        ensures
            tx is Some == self@.tx is Some,
            tx matches Some(sender) ==> self@.tx == Some(*sender),
    {
        self.tx.as_ref()
    }

    /// The signals that were queued while the engine was stopped, oldest first.
    pub fn queued_signals(&self) -> (queued_signals: &VecDeque<S>)
        ensures
            queued_signals@ == self@.queued_signals,
    {
        &self.queued_signals
    }

    /// The number of signals that wait on the incoming channel, where there is one.
    pub fn waiting(&self) -> (waiting: Option<usize>)
        ensures
            waiting is Some == self@.rx is Some,
            waiting matches Some(n) ==> n == self@.inbox().len(),
    {
        match &self.rx {
            Some(signals) => Some(signals.len()),
            None => None,
        }
    }

    /// Sends a signal on the incoming channel. An engine without such a
    /// channel hands the signal back.
    pub fn send(&mut self, signal: InSignal<W, A, S, F>) -> (sent: Result<
        (),
        InSignal<W, A, S, F>,
    >)
        requires
            old(self).wf(),
        ensures
            final(self).wf(),
            final(self)@ == old(self)@.send(signal),
            sent is Ok == old(self)@.rx is Some,
            sent matches Err(returned) ==> returned == signal,
    {
        match &mut self.rx {
            Some(signals) => {
                signals.push_back(signal);
                Ok(())
            },
            None => Err(signal),
        }
    }

    /// Tells the engine that the pipeline's initialization has put its result
    /// on the completion channel. Outside `InitializingPipeline` nothing changes.
    pub fn pipeline_initialized(&mut self)
        requires
            old(self).wf(),
        ensures
            final(self).wf(),
            final(self)@ == old(self)@.pipeline_initialized(),
    {
        if let EngineState::InitializingPipeline { .. } = self.state {
            self.state = EngineState::InitializingPipeline { completed: true };
        }
    }

    /// The platform is ready for a window. From `PreInit` the engine hands out
    /// its parameters in a launch and waits for the pipeline; in every other
    /// state it reports the resume and changes nothing.
    pub fn resumed(&mut self) -> (effects: Vec<Effect<W, A, S>>)
        requires
            old(self).wf(),
        ensures
            final(self).wf(),
            final(self)@ == old(self)@.resumed().0,
            effects@ == old(self)@.resumed().1,
    {
        let mut effects = Vec::new();
        let mut state = EngineState::Initializing;
        std::mem::swap(&mut self.state, &mut state);
        match state {
            EngineState::PreInit { window_attributes, system_pipeline_args } => {
                effects.push(Effect::Launch { window_attributes, system_pipeline_args });
                self.state = EngineState::InitializingPipeline { completed: false };
            },
            other => {
                effects.push(Effect::Report(Diagnostic::AlreadyInitialized));
                self.state = other;
            },
        }
        effects
    }

    /// A window event.
    ///
    /// A close request asks for the exit first, whatever the state. Then:
    /// while the pipeline is being initialized the event goes to the input
    /// accumulator, and a redraw adopts the pipeline once it is finished;
    /// while the pipeline runs the event goes to the pipeline and then to the
    /// accumulator, a redraw updates the pipeline and commits the input, the
    /// queued signals are replayed and the channel is read up to its first
    /// stop; while the engine is stopped the channel is read up to its first
    /// start, which launches the engine again, and a redraw is asked for
    /// where there was none; in `PreInit` and `Initializing` the event is
    /// reported and nothing changes.
    pub fn window_event(&mut self, event: &WindowEvent) -> (effects: Vec<Effect<W, A, S>>)
        requires
            old(self).wf(),
        ensures
            final(self).wf(),
            final(self)@ == old(self)@.window_event(*event).0,
            effects@ == old(self)@.window_event(*event).1,
    {
        let mut effects = Vec::new();
        if let WindowEvent::CloseRequested = event {
            effects.push(Effect::Exit);
        }
        let redraw = match event {
            WindowEvent::RedrawRequested => true,
            _ => false,
        };
        match self.state {
            EngineState::InitializingPipeline { completed } => {
                effects.push(Effect::AccumulateWindowEvent);
                if redraw && completed {
                    effects.push(Effect::AdoptPipeline);
                    effects.push(Effect::RequestRedraw);
                    self.state = EngineState::Running;
                }
            },
            EngineState::Running => {
                effects.push(Effect::PipelineWindowEvent);
                effects.push(Effect::AccumulateWindowEvent);
                if redraw {
                    effects.push(Effect::PipelineUpdate);
                    effects.push(Effect::CommitInput);
                }
                replay(&mut self.queued_signals, &mut effects);
                let stopped = match &mut self.rx {
                    Some(signals) => drain_running(signals, &mut effects),
                    None => false,
                };
                if stopped {
                    self.state = EngineState::Stopped;
                }
            },
            EngineState::Stopped => {
                let start = match &mut self.rx {
                    Some(signals) => drain_stopped(
                        signals,
                        &mut self.queued_signals,
                        &mut effects,
                    ),
                    None => None,
                };
                match start {
                    Some((window_attributes, system_pipeline_args)) => {
                        self.state = EngineState::PreInit {
                            window_attributes,
                            system_pipeline_args,
                        };
                        let mut launch = self.resumed();
                        effects.append(&mut launch);
                    },
                    None => {
                        effects.push(Effect::RequestRedraw);
                    },
                }
            },
            _ => {
                effects.push(Effect::Report(Diagnostic::UnexpectedState));
            },
        }
        effects
    }

    /// A device event. While the pipeline is being initialized it goes to the
    /// input accumulator; while the pipeline runs, to the accumulator and then
    /// to the pipeline; otherwise nowhere.
    pub fn device_event(&self) -> (effects: Vec<Effect<W, A, S>>)
        ensures
            effects@ == self@.device_event(),
    {
        let mut effects = Vec::new();
        match self.state {
            EngineState::InitializingPipeline { .. } => {
                effects.push(Effect::AccumulateDeviceEvent);
            },
            EngineState::Running => {
                effects.push(Effect::AccumulateDeviceEvent);
                effects.push(Effect::PipelineDeviceEvent);
            },
            _ => {},
        }
        effects
    }
}

} // verus!
