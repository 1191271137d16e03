use std::collections::VecDeque;

use pyramid_engine::engine::Comparison;
use pyramid_engine::engine::Effect;
use pyramid_engine::engine::Engine;
use pyramid_engine::engine::EngineState;
use pyramid_engine::engine::InSignal;
use pyramid_engine::engine::QueueBehavior;
use pyramid_engine::engine::WindowEvent;

#[derive(Debug, Clone, Copy, PartialEq)]
enum Message {
    Resize(u32, u32),
    X,
    Y,
    Z,
}

impl Message {
    fn is_resize(&self) -> bool {
        matches!(self, Message::Resize(..))
    }
}

struct BothResize;

impl Comparison<Message> for BothResize {
    fn matches(&self, new: Message, existing: Message) -> bool {
        new.is_resize() && existing.is_resize()
    }

    fn replaces(&self, new: &Message, existing: &Message) -> bool {
        new.is_resize() && existing.is_resize()
    }
}

type SignalEngine = Engine<&'static str, u8, Message, BothResize, ()>;
type Signal = InSignal<&'static str, u8, Message, BothResize>;
type SignalEffect = Effect<&'static str, u8, Message>;

fn stopped_engine() -> SignalEngine {
    let mut engine: SignalEngine = Engine::new("W", 0).with_rx(VecDeque::new());
    engine.resumed();
    engine.pipeline_initialized();
    engine.window_event(&WindowEvent::RedrawRequested);
    assert!(engine.send(Signal::Stop).is_ok());
    engine.window_event(&WindowEvent::RedrawRequested);
    assert_eq!(engine.state(), &EngineState::Stopped);
    engine
}

fn queued(engine: &SignalEngine) -> Vec<Message> {
    engine.queued_signals().iter().copied().collect()
}

fn restart(engine: &mut SignalEngine) {
    assert!(engine
        .send(Signal::Start { window_attributes: "W", system_pipeline_args: 0 })
        .is_ok());
    engine.window_event(&WindowEvent::Other);
    engine.pipeline_initialized();
    engine.window_event(&WindowEvent::RedrawRequested);
    assert_eq!(engine.state(), &EngineState::Running);
}

/// What a pipeline that writes down its calls sees of the effects.
fn calls(effects: &[SignalEffect]) -> Vec<String> {
    let mut calls = Vec::new();
    for effect in effects {
        match effect {
            Effect::PipelineWindowEvent => calls.push(format!("window_event")),
            Effect::PipelineDeviceEvent => calls.push(format!("device_event")),
            Effect::PipelineUpdate => calls.push(format!("update")),
            Effect::PipelineSignal(message) => calls.push(format!("in_signal {:?}", message)),
            _ => {}
        }
    }
    calls
}

#[test]
fn newer_resize_replaces_older_resize() {
    let mut engine = stopped_engine();
    assert!(engine.send(Signal::replacing(Message::Resize(100, 100), BothResize)).is_ok());
    assert!(engine.send(Signal::replacing(Message::Resize(200, 200), BothResize)).is_ok());
    engine.window_event(&WindowEvent::Other);
    assert_eq!(queued(&engine), vec![Message::Resize(200, 200)]);
}

#[test]
fn newer_resize_replaces_older_resize_across_events() {
    let mut engine = stopped_engine();
    assert!(engine.send(Signal::replacing(Message::Resize(100, 100), BothResize)).is_ok());
    engine.window_event(&WindowEvent::Other);
    assert_eq!(queued(&engine), vec![Message::Resize(100, 100)]);
    assert!(engine.send(Signal::replacing(Message::Resize(200, 200), BothResize)).is_ok());
    engine.window_event(&WindowEvent::Other);
    assert_eq!(queued(&engine), vec![Message::Resize(200, 200)]);
}

#[test]
fn replace_keeps_what_the_comparison_does_not_match() {
    let mut engine = stopped_engine();
    assert!(engine.send(Signal::queued(Message::X)).is_ok());
    assert!(engine.send(Signal::replacing(Message::Resize(1, 1), BothResize)).is_ok());
    assert!(engine.send(Signal::queued(Message::Y)).is_ok());
    assert!(engine.send(Signal::replacing(Message::Resize(2, 2), BothResize)).is_ok());
    engine.window_event(&WindowEvent::Other);
    assert_eq!(queued(&engine), vec![Message::X, Message::Y, Message::Resize(2, 2)]);
}

#[test]
fn replace_with_unmatched_signal_only_appends() {
    let mut engine = stopped_engine();
    assert!(engine.send(Signal::replacing(Message::Resize(1, 1), BothResize)).is_ok());
    assert!(engine.send(Signal::replacing(Message::X, BothResize)).is_ok());
    engine.window_event(&WindowEvent::Other);
    assert_eq!(queued(&engine), vec![Message::Resize(1, 1), Message::X]);
}

#[test]
fn queued_signals_replay_in_order_on_restart() {
    let mut engine = stopped_engine();
    assert!(engine.send(Signal::queued(Message::X)).is_ok());
    assert!(engine.send(Signal::queued(Message::Y)).is_ok());
    engine.window_event(&WindowEvent::Other);
    assert_eq!(queued(&engine), vec![Message::X, Message::Y]);
    restart(&mut engine);
    assert_eq!(queued(&engine), vec![Message::X, Message::Y]);
    let effects = engine.window_event(&WindowEvent::Other);
    assert_eq!(
        effects,
        vec![
            SignalEffect::PipelineWindowEvent,
            SignalEffect::AccumulateWindowEvent,
            SignalEffect::PipelineSignal(Message::X),
            SignalEffect::PipelineSignal(Message::Y)
        ]
    );
    assert!(queued(&engine).is_empty());
}

#[test]
fn ignored_signal_is_dropped_while_stopped() {
    let mut engine = stopped_engine();
    assert!(engine.send(Signal::ignored(Message::X)).is_ok());
    let effects = engine.window_event(&WindowEvent::Other);
    assert_eq!(effects, vec![SignalEffect::RequestRedraw]);
    assert!(queued(&engine).is_empty());
    assert_eq!(engine.waiting(), Some(0));
}

#[test]
fn frame_order_is_event_update_queued_then_channel() {
    let mut engine = stopped_engine();
    assert!(engine.send(Signal::queued(Message::X)).is_ok());
    assert!(engine.send(Signal::queued(Message::Y)).is_ok());
    engine.window_event(&WindowEvent::Other);
    restart(&mut engine);
    assert!(engine.send(Signal::ignored(Message::Z)).is_ok());
    assert!(engine.send(Signal::queued(Message::Resize(5, 6))).is_ok());
    let effects = engine.window_event(&WindowEvent::RedrawRequested);
    assert_eq!(
        calls(&effects),
        vec![
            "window_event",
            "update",
            "in_signal X",
            "in_signal Y",
            "in_signal Z",
            "in_signal Resize(5, 6)"
        ]
    );
    assert_eq!(
        effects,
        vec![
            SignalEffect::PipelineWindowEvent,
            SignalEffect::AccumulateWindowEvent,
            SignalEffect::PipelineUpdate,
            SignalEffect::CommitInput,
            SignalEffect::PipelineSignal(Message::X),
            SignalEffect::PipelineSignal(Message::Y),
            SignalEffect::PipelineSignal(Message::Z),
            SignalEffect::PipelineSignal(Message::Resize(5, 6))
        ]
    );
}

#[test]
fn events_during_initialization_are_all_accumulated() {
    let mut engine: SignalEngine = Engine::new("W", 0).with_rx(VecDeque::new());
    engine.resumed();
    let mut held = 0;
    for event in [WindowEvent::Other, WindowEvent::Focused(true), WindowEvent::Other] {
        for effect in engine.window_event(&event) {
            match effect {
                Effect::AccumulateWindowEvent | Effect::AccumulateDeviceEvent => held += 1,
                Effect::CommitInput | Effect::Launch { .. } | Effect::ReleasePipeline => held = 0,
                _ => {}
            }
        }
    }
    for effect in engine.device_event() {
        if effect == Effect::AccumulateDeviceEvent {
            held += 1;
        }
    }
    engine.pipeline_initialized();
    for effect in engine.window_event(&WindowEvent::RedrawRequested) {
        match effect {
            Effect::AccumulateWindowEvent => held += 1,
            Effect::CommitInput | Effect::Launch { .. } | Effect::ReleasePipeline => held = 0,
            _ => {}
        }
    }
    assert_eq!(engine.state(), &EngineState::Running);
    assert_eq!(held, 5);
}

#[test]
fn signal_builders_pair_payload_and_behaviour() {
    assert!(matches!(
        Signal::ignored(Message::X),
        InSignal::Custom { signal: Message::X, queue: QueueBehavior::Ignored }
    ));
    assert!(matches!(
        Signal::queued(Message::Y),
        InSignal::Custom { signal: Message::Y, queue: QueueBehavior::Queued }
    ));
    assert!(matches!(
        Signal::replacing(Message::Z, BothResize),
        InSignal::Custom { signal: Message::Z, queue: QueueBehavior::Replace(BothResize) }
    ));
    assert!(matches!(Signal::stop(), InSignal::Stop));
    assert!(matches!(
        Signal::start("A", 3),
        InSignal::Start { window_attributes: "A", system_pipeline_args: 3 }
    ));
}

#[derive(Debug, Clone, Copy)]
struct Holdings {
    window: bool,
    input: bool,
    pipeline: bool,
    completion: bool,
}

fn perform(holdings: &mut Holdings, effect: &SignalEffect) {
    match effect {
        Effect::Exit | Effect::Report(_) => {}
        Effect::Launch { .. } => {
            assert!(!holdings.pipeline);
            *holdings = Holdings { window: true, input: true, pipeline: false, completion: false };
        }
        Effect::AccumulateWindowEvent | Effect::AccumulateDeviceEvent => assert!(holdings.input),
        Effect::AdoptPipeline => {
            assert!(holdings.completion && holdings.input && !holdings.pipeline);
            holdings.pipeline = true;
            holdings.completion = false;
        }
        Effect::RequestRedraw => assert!(holdings.window),
        Effect::PipelineWindowEvent
        | Effect::PipelineDeviceEvent
        | Effect::PipelineUpdate
        | Effect::PipelineSignal(_) => assert!(holdings.pipeline),
        Effect::CommitInput => assert!(holdings.pipeline && holdings.input),
        Effect::ReleasePipeline => {
            assert!(holdings.pipeline);
            holdings.pipeline = false;
            holdings.input = false;
        }
    }
}

#[test]
fn host_can_perform_every_effect_of_a_long_run() {
    let mut engine: SignalEngine = Engine::new("W", 0).with_rx(VecDeque::new());
    let mut holdings =
        Holdings { window: false, input: false, pipeline: false, completion: false };
    let mut seed: u32 = 12345;
    let mut reached = [false; 4];
    for _ in 0..5000 {
        seed = seed.wrapping_mul(1664525).wrapping_add(1013904223);
        let effects = match (seed >> 16) % 12 {
            0 => engine.resumed(),
            1 => engine.window_event(&WindowEvent::RedrawRequested),
            2 => engine.window_event(&WindowEvent::Other),
            3 => engine.window_event(&WindowEvent::CloseRequested),
            4 => engine.device_event(),
            5 => {
                if matches!(engine.state(), EngineState::InitializingPipeline { .. }) {
                    engine.pipeline_initialized();
                    holdings.completion = true;
                }
                Vec::new()
            }
            6 => {
                assert!(engine.send(Signal::Stop).is_ok());
                Vec::new()
            }
            7 => {
                assert!(engine
                    .send(Signal::Start { window_attributes: "V", system_pipeline_args: 1 })
                    .is_ok());
                Vec::new()
            }
            8 => {
                assert!(engine.send(Signal::queued(Message::X)).is_ok());
                Vec::new()
            }
            9 => {
                assert!(engine
                    .send(Signal::replacing(Message::Resize(seed, 1), BothResize))
                    .is_ok());
                Vec::new()
            }
            10 => {
                assert!(engine.send(Signal::ignored(Message::Y)).is_ok());
                Vec::new()
            }
            _ => engine.window_event(&WindowEvent::Focused(false)),
        };
        for effect in &effects {
            perform(&mut holdings, effect);
        }
        match engine.state() {
            EngineState::PreInit { .. } => {
                reached[0] = true;
                assert!(!holdings.pipeline);
            }
            EngineState::Initializing => panic!("no step leaves the engine here"),
            EngineState::InitializingPipeline { completed } => {
                reached[1] = true;
                assert!(holdings.window && holdings.input && !holdings.pipeline);
                assert_eq!(holdings.completion, *completed);
            }
            EngineState::Running => {
                reached[2] = true;
                assert!(holdings.window && holdings.input && holdings.pipeline);
            }
            EngineState::Stopped => {
                reached[3] = true;
                assert!(holdings.window && !holdings.pipeline);
            }
        }
        let resizes = queued(&engine).iter().filter(|message| message.is_resize()).count();
        assert!(resizes <= 1 || !matches!(engine.state(), EngineState::Stopped));
    }
    assert_eq!(reached, [true, true, true, true]);
}
