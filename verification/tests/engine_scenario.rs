use std::collections::VecDeque;

use pyramid_engine::engine::Comparison;
use pyramid_engine::engine::Diagnostic;
use pyramid_engine::engine::Effect;
use pyramid_engine::engine::Engine;
use pyramid_engine::engine::EngineState;
use pyramid_engine::engine::InSignal;
use pyramid_engine::engine::WindowEvent;

struct Same;

impl Comparison<u32> for Same {
    fn matches(&self, new: u32, existing: u32) -> bool {
        new == existing
    }

    fn replaces(&self, new: &u32, existing: &u32) -> bool {
        new == existing
    }
}

type TestEngine = Engine<&'static str, u8, u32, Same, ()>;
type TestSignal = InSignal<&'static str, u8, u32, Same>;
type TestEffect = Effect<&'static str, u8, u32>;

fn engine_with_channel() -> TestEngine {
    Engine::new("W", 0).with_rx(VecDeque::new())
}

#[test]
fn full_cycle_restarts_with_new_arguments() {
    let mut engine: TestEngine = engine_with_channel();
    assert_eq!(
        engine.state(),
        &EngineState::PreInit { window_attributes: "W", system_pipeline_args: 0 }
    );

    let effects = engine.resumed();
    assert_eq!(
        effects,
        vec![TestEffect::Launch { window_attributes: "W", system_pipeline_args: 0 }]
    );
    assert_eq!(engine.state(), &EngineState::InitializingPipeline { completed: false });

    engine.pipeline_initialized();
    assert_eq!(engine.state(), &EngineState::InitializingPipeline { completed: true });
    let effects = engine.window_event(&WindowEvent::RedrawRequested);
    assert_eq!(
        effects,
        vec![
            TestEffect::AccumulateWindowEvent,
            TestEffect::AdoptPipeline,
            TestEffect::RequestRedraw
        ]
    );
    assert_eq!(engine.state(), &EngineState::Running);

    assert!(engine.send(TestSignal::Stop).is_ok());
    let effects = engine.window_event(&WindowEvent::RedrawRequested);
    assert_eq!(
        effects,
        vec![
            TestEffect::PipelineWindowEvent,
            TestEffect::AccumulateWindowEvent,
            TestEffect::PipelineUpdate,
            TestEffect::CommitInput,
            TestEffect::ReleasePipeline
        ]
    );
    assert_eq!(engine.state(), &EngineState::Stopped);

    assert!(engine
        .send(TestSignal::Start { window_attributes: "W2", system_pipeline_args: 1 })
        .is_ok());
    let effects = engine.window_event(&WindowEvent::RedrawRequested);
    assert_eq!(
        effects,
        vec![TestEffect::Launch { window_attributes: "W2", system_pipeline_args: 1 }]
    );
    assert_eq!(engine.state(), &EngineState::InitializingPipeline { completed: false });

    engine.pipeline_initialized();
    engine.window_event(&WindowEvent::RedrawRequested);
    assert_eq!(engine.state(), &EngineState::Running);
}

#[test]
fn resume_twice_reports_and_changes_nothing() {
    let mut engine: TestEngine = engine_with_channel();
    engine.resumed();
    let effects = engine.resumed();
    assert_eq!(effects, vec![TestEffect::Report(Diagnostic::AlreadyInitialized)]);
    assert_eq!(engine.state(), &EngineState::InitializingPipeline { completed: false });
}

#[test]
fn new_engine_has_no_channels_and_nothing_queued() {
    let engine: TestEngine = Engine::new("W", 7);
    assert_eq!(engine.waiting(), None);
    assert!(engine.tx().is_none());
    assert!(engine.queued_signals().is_empty());
    assert_eq!(
        engine.state(),
        &EngineState::PreInit { window_attributes: "W", system_pipeline_args: 7 }
    );
}

#[test]
fn with_rx_takes_the_signals_that_wait() {
    let mut rx = VecDeque::new();
    rx.push_back(TestSignal::Stop);
    rx.push_back(TestSignal::queued(3));
    let engine: TestEngine = Engine::new("W", 0).with_rx(rx);
    assert_eq!(engine.waiting(), Some(2));
}

#[test]
fn with_tx_keeps_the_sender() {
    let engine: Engine<&'static str, u8, u32, Same, u16> = Engine::new("W", 0).with_tx(99);
    assert_eq!(engine.tx(), Some(&99));
}

#[test]
fn send_without_channel_hands_the_signal_back() {
    let mut engine: TestEngine = Engine::new("W", 0);
    match engine.send(TestSignal::queued(5)) {
        Err(InSignal::Custom { signal, .. }) => assert_eq!(signal, 5),
        _ => panic!("the signal must come back"),
    }
    assert_eq!(engine.waiting(), None);
}

#[test]
fn send_with_channel_appends() {
    let mut engine: TestEngine = engine_with_channel();
    assert!(engine.send(TestSignal::Stop).is_ok());
    assert!(engine.send(TestSignal::Stop).is_ok());
    assert_eq!(engine.waiting(), Some(2));
}

#[test]
fn pipeline_initialized_outside_initialization_changes_nothing() {
    let mut engine: TestEngine = engine_with_channel();
    engine.pipeline_initialized();
    assert_eq!(
        engine.state(),
        &EngineState::PreInit { window_attributes: "W", system_pipeline_args: 0 }
    );
}

#[test]
fn signals_wait_while_the_pipeline_is_initialized() {
    let mut engine: TestEngine = engine_with_channel();
    engine.resumed();
    assert!(engine.send(TestSignal::Stop).is_ok());
    assert!(engine
        .send(TestSignal::Start { window_attributes: "W2", system_pipeline_args: 1 })
        .is_ok());
    let effects = engine.window_event(&WindowEvent::RedrawRequested);
    assert_eq!(effects, vec![TestEffect::AccumulateWindowEvent]);
    assert_eq!(engine.waiting(), Some(2));
    assert_eq!(engine.state(), &EngineState::InitializingPipeline { completed: false });

    engine.pipeline_initialized();
    engine.window_event(&WindowEvent::RedrawRequested);
    assert_eq!(engine.state(), &EngineState::Running);
    assert_eq!(engine.waiting(), Some(2));

    let effects = engine.window_event(&WindowEvent::Other);
    assert_eq!(
        effects,
        vec![
            TestEffect::PipelineWindowEvent,
            TestEffect::AccumulateWindowEvent,
            TestEffect::ReleasePipeline
        ]
    );
    assert_eq!(engine.state(), &EngineState::Stopped);
    assert_eq!(engine.waiting(), Some(1));

    let effects = engine.window_event(&WindowEvent::Other);
    assert_eq!(
        effects,
        vec![TestEffect::Launch { window_attributes: "W2", system_pipeline_args: 1 }]
    );
    assert_eq!(engine.state(), &EngineState::InitializingPipeline { completed: false });
    assert_eq!(engine.waiting(), Some(0));
}
