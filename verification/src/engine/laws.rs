//! What holds of every engine, proved from the steps of the model.

use vstd::prelude::*;
use crate::engine::effect::Diagnostic;
use crate::engine::effect::Effect;
use crate::engine::event::WindowEvent;
use crate::engine::model::lemma_first_start;
use crate::engine::model::lemma_first_stop;
use crate::engine::model::lemma_first_stop_bounds;
use crate::engine::model::running_effect;
use crate::engine::model::close_effects;
use crate::engine::model::delivered;
use crate::engine::model::enqueue_all;
use crate::engine::model::first_stop;
use crate::engine::model::frame_effects;
use crate::engine::model::replayed;
use crate::engine::model::stop_reports;
use crate::engine::model::EngineModel;
use crate::engine::model::EngineState;
use crate::engine::signal::kept;
use crate::engine::signal::replace_in;
use crate::engine::signal::Comparison;
use crate::engine::signal::InSignal;
use crate::engine::signal::QueueBehavior;

verus! {

/// One step of the designed cycle, or no step at all.
pub open spec fn follows_cycle<W, A>(before: EngineState<W, A>, after: EngineState<W, A>) -> bool {
    ||| after == before
    ||| before is PreInit && after == EngineState::<W, A>::InitializingPipeline { completed: false }
    ||| before is InitializingPipeline && after is InitializingPipeline
    ||| before is InitializingPipeline && after is Running
    ||| before is Running && after is Stopped
    ||| before is Stopped && after == EngineState::<W, A>::InitializingPipeline { completed: false }
}

/// Every step is defined on every state, keeps the engine well formed, and
/// moves the state along the designed cycle or leaves it where it is. No step
/// leaves the engine in `Initializing` unless it found it there.
pub proof fn law_steps_are_total<W, A, S, F: Comparison<S>, O>(
    engine: EngineModel<W, A, S, F, O>,
    event: WindowEvent,
    signal: InSignal<W, A, S, F>,
)
    requires
        engine.wf(),
    ensures
        engine.resumed().0.wf(),
        follows_cycle(engine.state, engine.resumed().0.state),
        engine.window_event(event).0.wf(),
        follows_cycle(engine.state, engine.window_event(event).0.state),
        engine.pipeline_initialized().wf(),
        follows_cycle(engine.state, engine.pipeline_initialized().state),
        engine.send(signal).wf(),
        engine.send(signal).state == engine.state,
{
}

/// A step that the table of states and events does not define changes
/// nothing and reports the misuse: a window event in `PreInit` or
/// `Initializing`, a resume anywhere but in `PreInit`. A device event outside
/// `InitializingPipeline` and `Running` has no effect at all.
pub proof fn law_undefined_steps_change_nothing<W, A, S, F: Comparison<S>, O>(
    engine: EngineModel<W, A, S, F, O>,
    event: WindowEvent,
)
    ensures
        engine.state is PreInit || engine.state is Initializing ==> {
            &&& engine.window_event(event).0 == engine
            &&& engine.window_event(event).1 == close_effects::<W, A, S>(event).push(
                Effect::Report(Diagnostic::UnexpectedState),
            )
        },
        !(engine.state is PreInit) ==> {
            &&& engine.resumed().0 == engine
            &&& engine.resumed().1 == seq![
                Effect::<W, A, S>::Report(Diagnostic::AlreadyInitialized),
            ]
        },
        !(engine.state is InitializingPipeline) && !(engine.state is Running)
            ==> engine.device_event() == Seq::<Effect<W, A, S>>::empty(),
{
}

/// A close request asks for the exit before anything else, in every state,
/// and is otherwise handled as an event that is neither a close request nor
/// a redraw. No other event asks for the exit.
pub proof fn law_close_request_exits<W, A, S, F: Comparison<S>, O>(
    engine: EngineModel<W, A, S, F, O>,
    event: WindowEvent,
)
    ensures
        engine.window_event(WindowEvent::CloseRequested).0 == engine.window_event(
            WindowEvent::Other,
        ).0,
        engine.window_event(WindowEvent::CloseRequested).1 == seq![Effect::<W, A, S>::Exit]
            + engine.window_event(WindowEvent::Other).1,
        !(event is CloseRequested) ==> !engine.window_event(event).1.contains(Effect::Exit),
{
}

/// Within one step of a running engine the order is fixed: after the exit
/// that a close request asks for, the event goes to the pipeline and then to
/// the input accumulator; on a redraw the pipeline updates and the input is
/// committed; then come the queued signals, oldest first; then the signals of
/// the channel, oldest first, up to the first stop, which releases the
/// pipeline and ends the step.
pub proof fn law_frame_order<W, A, S, F: Comparison<S>, O>(
    engine: EngineModel<W, A, S, F, O>,
    event: WindowEvent,
)
    requires
        engine.state is Running,
    ensures
        ({
            let effects = engine.window_event(event).1;
            let after = engine.window_event(event).0;
            let queued = engine.queued_signals;
            let inbox = engine.inbox();
            let cut = first_stop(inbox);
            let close: int = if event is CloseRequested {
                1
            } else {
                0
            };
            let frame: int = if event is RedrawRequested {
                close + 4
            } else {
                close + 2
            };
            &&& 0 <= cut <= inbox.len()
            &&& effects.len() == frame + queued.len() + cut + if cut < inbox.len() {
                1int
            } else {
                0int
            }
            &&& effects[close] == Effect::<W, A, S>::PipelineWindowEvent
            &&& effects[close + 1] == Effect::<W, A, S>::AccumulateWindowEvent
            &&& event is RedrawRequested ==> effects[close + 2] == Effect::<
                W,
                A,
                S,
            >::PipelineUpdate && effects[close + 3] == Effect::<W, A, S>::CommitInput
            &&& forall|i: int|
                0 <= i < queued.len() ==> #[trigger] effects[frame + i] == Effect::<
                    W,
                    A,
                    S,
                >::PipelineSignal(queued[i])
            &&& forall|j: int|
                0 <= j < cut ==> #[trigger] effects[frame + queued.len() + j] == running_effect(
                    inbox[j],
                )
            &&& cut < inbox.len() ==> effects.last() == Effect::<W, A, S>::ReleasePipeline
                && after.state is Stopped
            &&& cut == inbox.len() ==> after.state is Running
            &&& after.queued_signals.len() == 0
        }),
{
    lemma_first_stop_bounds(engine.inbox());
}

/// Stops that find the engine stopped leave the queue as it is and are
/// answered with one report each.
proof fn lemma_only_stops<W, A, S, F: Comparison<S>>(
    waiting: Seq<S>,
    signals: Seq<InSignal<W, A, S, F>>,
)
    requires
        forall|i: int| 0 <= i < signals.len() ==> #[trigger] signals[i] is Stop,
    ensures
        enqueue_all(waiting, signals) == waiting,
        stop_reports(signals) == Seq::new(
            signals.len(),
            |i: int| Effect::<W, A, S>::Report(Diagnostic::AlreadyStopped),
        ),
    decreases signals.len(),
{
    reveal(Seq::filter);
    if signals.len() > 0 {
        let earlier = signals.drop_last();
        assert forall|i: int| 0 <= i < earlier.len() implies #[trigger] earlier[i] is Stop by {}
        lemma_only_stops(waiting, earlier);
        assert(stop_reports(signals) == stop_reports(earlier).push(
            Effect::Report(Diagnostic::AlreadyStopped),
        ));
    }
}

/// Stops that find the engine stopped, and starts that find it running, are
/// reported one by one and change neither the state nor the queue.
pub proof fn law_redundant_signals_change_nothing<W, A, S, F: Comparison<S>, O>(
    engine: EngineModel<W, A, S, F, O>,
    event: WindowEvent,
)
    requires
        engine.wf(),
    ensures
        engine.state is Stopped && (forall|i: int|
            0 <= i < engine.inbox().len() ==> #[trigger] engine.inbox()[i] is Stop) ==> {
            &&& engine.window_event(event).0.state is Stopped
            &&& engine.window_event(event).0.queued_signals == engine.queued_signals
            &&& engine.window_event(event).1 == (close_effects::<W, A, S>(event) + Seq::new(
                engine.inbox().len(),
                |i: int| Effect::<W, A, S>::Report(Diagnostic::AlreadyStopped),
            )).push(Effect::RequestRedraw)
        },
        engine.state is Running && (forall|i: int|
            0 <= i < engine.inbox().len() ==> #[trigger] engine.inbox()[i] is Start) ==> {
            &&& engine.window_event(event).0.state is Running
            &&& engine.window_event(event).1 == close_effects::<W, A, S>(event) + frame_effects::<
                W,
                A,
                S,
            >(event) + replayed(engine.queued_signals) + Seq::new(
                engine.inbox().len(),
                |i: int| Effect::<W, A, S>::Report(Diagnostic::AlreadyStarted),
            )
        },
{
    let inbox = engine.inbox();
    if engine.state is Stopped && (forall|i: int|
        0 <= i < inbox.len() ==> #[trigger] inbox[i] is Stop) {
        lemma_first_start(inbox, inbox.len() as int);
        assert(inbox.take(inbox.len() as int) == inbox);
        lemma_only_stops(engine.queued_signals, inbox);
    }
    if engine.state is Running && (forall|i: int|
        0 <= i < inbox.len() ==> #[trigger] inbox[i] is Start) {
        lemma_first_stop(inbox, inbox.len() as int);
    }
}

/// Two stops sent in a row to a running engine: the first stops it, the
/// second is reported on the next event and changes nothing.
pub proof fn law_stop_twice<W, A, S, F: Comparison<S>, O>(
    engine: EngineModel<W, A, S, F, O>,
    first: WindowEvent,
    second: WindowEvent,
)
    requires
        engine.wf(),
        engine.state is Running,
        engine.rx == Some(seq![InSignal::<W, A, S, F>::Stop, InSignal::<W, A, S, F>::Stop]),
    ensures
        ({
            let stopped = engine.window_event(first).0;
            let again = stopped.window_event(second);
            &&& stopped.state is Stopped
            &&& again.0.state is Stopped
            &&& again.0.queued_signals == stopped.queued_signals
            &&& again.1 == close_effects::<W, A, S>(second) + seq![
                Effect::<W, A, S>::Report(Diagnostic::AlreadyStopped),
                Effect::RequestRedraw,
            ]
        }),
{
    law_redundant_signals_change_nothing(engine.window_event(first).0, second);
}

/// The payloads of custom signals, in their order.
pub open spec fn payloads<W, A, S, F>(signals: Seq<InSignal<W, A, S, F>>) -> Seq<S> {
    signals.map_values(|s: InSignal<W, A, S, F>| s->signal)
}

/// Signals that are all queued join the queue in the order of their arrival.
pub proof fn law_queue_is_fifo<W, A, S, F: Comparison<S>>(
    waiting: Seq<S>,
    signals: Seq<InSignal<W, A, S, F>>,
)
    requires
        forall|i: int|
            0 <= i < signals.len() ==> (#[trigger] signals[i] matches InSignal::Custom {
                queue: QueueBehavior::Queued,
                ..
            }),
    ensures
        enqueue_all(waiting, signals) == waiting + payloads(signals),
    decreases signals.len(),
{
    if signals.len() > 0 {
        let earlier = signals.drop_last();
        assert forall|i: int| 0 <= i < earlier.len() implies (#[trigger] earlier[i]
            matches InSignal::Custom { queue: QueueBehavior::Queued, .. }) by {}
        law_queue_is_fifo(waiting, earlier);
    }
}

/// A replacing signal ends up last in the queue; before it stand the waiting
/// signals that it does not replace, in their order, and no other. Where it
/// replaces all of them it is alone.
pub proof fn law_replace_supersedes<S, F: Comparison<S>>(waiting: Seq<S>, p: F, new: S)
    ensures
        replace_in(waiting, p, new).last() == new,
        replace_in(waiting, p, new).drop_last() == kept(waiting, p, new),
        forall|i: int|
            0 <= i < kept(waiting, p, new).len() ==> !p.matches(
                new,
                #[trigger] kept(waiting, p, new)[i],
            ) && waiting.contains(kept(waiting, p, new)[i]),
        forall|i: int|
            0 <= i < waiting.len() && !p.matches(new, #[trigger] waiting[i]) ==> kept(
                waiting,
                p,
                new,
            ).contains(waiting[i]),
        (forall|i: int| 0 <= i < waiting.len() ==> p.matches(new, #[trigger] waiting[i]))
            ==> replace_in(waiting, p, new) == seq![new],
{
    let keep = |existing: S| !p.matches(new, existing);
    let rest = kept(waiting, p, new);
    assert forall|i: int| 0 <= i < rest.len() implies !p.matches(new, #[trigger] rest[i])
        && waiting.contains(rest[i]) by {
        waiting.lemma_filter_pred(keep, i);
        waiting.lemma_filter_contains_rev(keep, rest[i]);
    }
    if forall|i: int| 0 <= i < waiting.len() ==> p.matches(new, #[trigger] waiting[i]) {
        if rest.len() > 0 {
            waiting.lemma_filter_pred(keep, 0);
            waiting.lemma_filter_contains_rev(keep, rest[0]);
        }
    }
}

/// Two signals sent to a stopped engine with nothing queued, the second of
/// which replaces the first: only the second waits in the queue afterwards.
pub proof fn law_newer_signal_replaces_older<W, A, S, F: Comparison<S>, O>(
    engine: EngineModel<W, A, S, F, O>,
    older: S,
    newer: S,
    p: F,
    event: WindowEvent,
)
    requires
        engine.wf(),
        engine.state is Stopped,
        engine.queued_signals == Seq::<S>::empty(),
        p.matches(newer, older),
        engine.rx == Some(
            seq![
                InSignal::<W, A, S, F>::Custom { signal: older, queue: QueueBehavior::Replace(p) },
                InSignal::<W, A, S, F>::Custom { signal: newer, queue: QueueBehavior::Replace(p) },
            ],
        ),
    ensures
        engine.window_event(event).0.state is Stopped,
        engine.window_event(event).0.queued_signals == seq![newer],
{
    let inbox = engine.inbox();
    lemma_first_start(inbox, 2);
    reveal_with_fuel(enqueue_all, 3);
    let empty = Seq::<S>::empty();
    law_replace_supersedes(empty, p, older);
    let one = seq![older];
    law_replace_supersedes(one, p, newer);
}

/// What the input accumulator holds after the effects, counted in events, if
/// it held `held` before them: an accumulated event adds one; a commit, a
/// launch and a release start from nothing.
pub open spec fn held_after<W, A, S>(effects: Seq<Effect<W, A, S>>, held: nat) -> nat
    decreases effects.len(),
{
    if effects.len() == 0 {
        held
    } else {
        let before = held_after(effects.drop_last(), held);
        match effects.last() {
            Effect::AccumulateWindowEvent | Effect::AccumulateDeviceEvent => before + 1,
            Effect::CommitInput | Effect::Launch { .. } | Effect::ReleasePipeline => 0,
            _ => before,
        }
    }
}

/// The engine after the window events, delivered in their order.
pub open spec fn after_window_events<W, A, S, F: Comparison<S>, O>(
    engine: EngineModel<W, A, S, F, O>,
    events: Seq<WindowEvent>,
) -> EngineModel<W, A, S, F, O>
    decreases events.len(),
{
    if events.len() == 0 {
        engine
    } else {
        after_window_events(engine, events.drop_last()).window_event(events.last()).0
    }
}

/// The effects of the window events, delivered in their order.
pub open spec fn effects_of_window_events<W, A, S, F: Comparison<S>, O>(
    engine: EngineModel<W, A, S, F, O>,
    events: Seq<WindowEvent>,
) -> Seq<Effect<W, A, S>>
    decreases events.len(),
{
    if events.len() == 0 {
        Seq::empty()
    } else {
        effects_of_window_events(engine, events.drop_last()) + after_window_events(
            engine,
            events.drop_last(),
        ).window_event(events.last()).1
    }
}

/// What the accumulator holds after two runs of effects, one after the other.
pub proof fn lemma_held_after_add<W, A, S>(
    first: Seq<Effect<W, A, S>>,
    second: Seq<Effect<W, A, S>>,
    held: nat,
)
    ensures
        held_after(first + second, held) == held_after(second, held_after(first, held)),
    decreases second.len(),
{
    if second.len() > 0 {
        assert((first + second).drop_last() == first + second.drop_last());
        lemma_held_after_add(first, second.drop_last(), held);
    }
}

/// No event is lost while the pipeline is being initialized: each window
/// event and each device event of that time is accumulated, and the step that
/// brings the engine to `Running` keeps what was accumulated.
pub proof fn law_initializing_accumulates<W, A, S, F: Comparison<S>, O>(
    engine: EngineModel<W, A, S, F, O>,
    event: WindowEvent,
    held: nat,
)
    requires
        engine.state is InitializingPipeline,
    ensures
        held_after(engine.window_event(event).1, held) == held + 1,
        held_after(engine.device_event(), held) == held + 1,
        engine.window_event(event).0.state is InitializingPipeline || engine.window_event(
            event,
        ).0.state is Running,
{
    reveal_with_fuel(held_after, 6);
}

/// Window events delivered one after the other while the pipeline is being
/// initialized, the last of which may bring the engine to `Running`: the
/// accumulator then holds every one of them.
pub proof fn law_no_event_lost_across_init<W, A, S, F: Comparison<S>, O>(
    engine: EngineModel<W, A, S, F, O>,
    events: Seq<WindowEvent>,
    held: nat,
)
    requires
        engine.state is InitializingPipeline,
        forall|n: int|
            0 <= n < events.len() ==> (#[trigger] after_window_events(
                engine,
                events.take(n),
            )).state is InitializingPipeline,
    ensures
        held_after(effects_of_window_events(engine, events), held) == held + events.len(),
        after_window_events(engine, events).state is InitializingPipeline || after_window_events(
            engine,
            events,
        ).state is Running,
    decreases events.len(),
{
    if events.len() > 0 {
        let earlier = events.drop_last();
        assert forall|n: int| 0 <= n < earlier.len() implies (#[trigger] after_window_events(
            engine,
            earlier.take(n),
        )).state is InitializingPipeline by {
            assert(earlier.take(n) == events.take(n));
        }
        law_no_event_lost_across_init(engine, earlier, held);
        let before = after_window_events(engine, earlier);
        let so_far = effects_of_window_events(engine, earlier);
        lemma_held_after_add(so_far, before.window_event(events.last()).1, held);
        law_initializing_accumulates(before, events.last(), held_after(so_far, held));
    }
}

} // verus!
