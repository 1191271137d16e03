use std::collections::VecDeque;

use pyramid_engine::engine::Comparison;
use pyramid_engine::engine::Diagnostic;
use pyramid_engine::engine::Effect;
use pyramid_engine::engine::Engine;
use pyramid_engine::engine::EngineState;
use pyramid_engine::engine::InSignal;
use pyramid_engine::engine::WindowEvent;

struct Never;

impl Comparison<char> for Never {
    fn matches(&self, _new: char, _existing: char) -> bool {
        false
    }

    fn replaces(&self, _new: &char, _existing: &char) -> bool {
        false
    }
}

type TableEngine = Engine<u8, u8, char, Never, ()>;
type TableSignal = InSignal<u8, u8, char, Never>;
type TableEffect = Effect<u8, u8, char>;

fn pre_init() -> TableEngine {
    Engine::new(1, 2).with_rx(VecDeque::new())
}

fn initializing() -> TableEngine {
    let mut engine = pre_init();
    engine.resumed();
    engine
}

fn running() -> TableEngine {
    let mut engine = initializing();
    engine.pipeline_initialized();
    engine.window_event(&WindowEvent::RedrawRequested);
    engine
}

fn stopped() -> TableEngine {
    let mut engine = running();
    assert!(engine.send(TableSignal::Stop).is_ok());
    engine.window_event(&WindowEvent::Other);
    engine
}

#[test]
fn helpers_reach_their_states() {
    assert_eq!(
        pre_init().state(),
        &EngineState::PreInit { window_attributes: 1, system_pipeline_args: 2 }
    );
    assert_eq!(initializing().state(), &EngineState::InitializingPipeline { completed: false });
    assert_eq!(running().state(), &EngineState::Running);
    assert_eq!(stopped().state(), &EngineState::Stopped);
}

#[test]
fn window_event_in_pre_init_is_reported() {
    let mut engine = pre_init();
    let effects = engine.window_event(&WindowEvent::RedrawRequested);
    assert_eq!(effects, vec![TableEffect::Report(Diagnostic::UnexpectedState)]);
    assert_eq!(
        engine.state(),
        &EngineState::PreInit { window_attributes: 1, system_pipeline_args: 2 }
    );
}

#[test]
fn close_request_in_pre_init_exits_and_is_reported() {
    let mut engine = pre_init();
    let effects = engine.window_event(&WindowEvent::CloseRequested);
    assert_eq!(
        effects,
        vec![TableEffect::Exit, TableEffect::Report(Diagnostic::UnexpectedState)]
    );
}

#[test]
fn device_event_in_pre_init_does_nothing() {
    assert_eq!(pre_init().device_event(), vec![]);
}

#[test]
fn window_event_while_initializing_is_accumulated() {
    let mut engine = initializing();
    for event in [
        WindowEvent::Other,
        WindowEvent::Focused(true),
        WindowEvent::Resized { width: 3, height: 4 },
        WindowEvent::RedrawRequested,
    ] {
        let effects = engine.window_event(&event);
        assert_eq!(effects, vec![TableEffect::AccumulateWindowEvent]);
        assert_eq!(engine.state(), &EngineState::InitializingPipeline { completed: false });
    }
}

#[test]
fn close_request_while_initializing_exits_and_is_accumulated() {
    let mut engine = initializing();
    let effects = engine.window_event(&WindowEvent::CloseRequested);
    assert_eq!(effects, vec![TableEffect::Exit, TableEffect::AccumulateWindowEvent]);
    assert_eq!(engine.state(), &EngineState::InitializingPipeline { completed: false });
}

#[test]
fn only_a_redraw_adopts_the_finished_pipeline() {
    let mut engine = initializing();
    engine.pipeline_initialized();
    let effects = engine.window_event(&WindowEvent::Other);
    assert_eq!(effects, vec![TableEffect::AccumulateWindowEvent]);
    assert_eq!(engine.state(), &EngineState::InitializingPipeline { completed: true });
    let effects = engine.window_event(&WindowEvent::RedrawRequested);
    assert_eq!(
        effects,
        vec![
            TableEffect::AccumulateWindowEvent,
            TableEffect::AdoptPipeline,
            TableEffect::RequestRedraw
        ]
    );
    assert_eq!(engine.state(), &EngineState::Running);
}

#[test]
fn device_event_while_initializing_is_accumulated() {
    assert_eq!(initializing().device_event(), vec![TableEffect::AccumulateDeviceEvent]);
}

#[test]
fn device_event_while_running_goes_to_accumulator_then_pipeline() {
    assert_eq!(
        running().device_event(),
        vec![TableEffect::AccumulateDeviceEvent, TableEffect::PipelineDeviceEvent]
    );
}

#[test]
fn device_event_while_stopped_does_nothing() {
    assert_eq!(stopped().device_event(), vec![]);
}

#[test]
fn window_event_while_running_goes_to_pipeline_then_accumulator() {
    let mut engine = running();
    let effects = engine.window_event(&WindowEvent::Focused(false));
    assert_eq!(
        effects,
        vec![TableEffect::PipelineWindowEvent, TableEffect::AccumulateWindowEvent]
    );
    assert_eq!(engine.state(), &EngineState::Running);
}

#[test]
fn redraw_while_running_updates_and_commits() {
    let mut engine = running();
    let effects = engine.window_event(&WindowEvent::RedrawRequested);
    assert_eq!(
        effects,
        vec![
            TableEffect::PipelineWindowEvent,
            TableEffect::AccumulateWindowEvent,
            TableEffect::PipelineUpdate,
            TableEffect::CommitInput
        ]
    );
}

#[test]
fn close_request_while_running_exits_first() {
    let mut engine = running();
    let effects = engine.window_event(&WindowEvent::CloseRequested);
    assert_eq!(
        effects,
        vec![
            TableEffect::Exit,
            TableEffect::PipelineWindowEvent,
            TableEffect::AccumulateWindowEvent
        ]
    );
    assert_eq!(engine.state(), &EngineState::Running);
}

#[test]
fn custom_signal_while_running_goes_to_the_pipeline() {
    let mut engine = running();
    assert!(engine.send(TableSignal::ignored('a')).is_ok());
    assert!(engine.send(TableSignal::queued('b')).is_ok());
    assert!(engine.send(TableSignal::replacing('c', Never)).is_ok());
    let effects = engine.window_event(&WindowEvent::Other);
    assert_eq!(
        effects,
        vec![
            TableEffect::PipelineWindowEvent,
            TableEffect::AccumulateWindowEvent,
            TableEffect::PipelineSignal('a'),
            TableEffect::PipelineSignal('b'),
            TableEffect::PipelineSignal('c')
        ]
    );
    assert_eq!(engine.waiting(), Some(0));
    assert!(engine.queued_signals().is_empty());
}

#[test]
fn start_while_running_is_reported_and_changes_nothing() {
    let mut engine = running();
    assert!(engine
        .send(TableSignal::Start { window_attributes: 8, system_pipeline_args: 9 })
        .is_ok());
    let effects = engine.window_event(&WindowEvent::Other);
    assert_eq!(
        effects,
        vec![
            TableEffect::PipelineWindowEvent,
            TableEffect::AccumulateWindowEvent,
            TableEffect::Report(Diagnostic::AlreadyStarted)
        ]
    );
    assert_eq!(engine.state(), &EngineState::Running);
}

#[test]
fn stop_while_running_ends_the_step() {
    let mut engine = running();
    assert!(engine.send(TableSignal::queued('a')).is_ok());
    assert!(engine.send(TableSignal::Stop).is_ok());
    assert!(engine.send(TableSignal::queued('b')).is_ok());
    let effects = engine.window_event(&WindowEvent::Other);
    assert_eq!(
        effects,
        vec![
            TableEffect::PipelineWindowEvent,
            TableEffect::AccumulateWindowEvent,
            TableEffect::PipelineSignal('a'),
            TableEffect::ReleasePipeline
        ]
    );
    assert_eq!(engine.state(), &EngineState::Stopped);
    assert_eq!(engine.waiting(), Some(1));
}

#[test]
fn window_event_while_stopped_asks_for_a_redraw() {
    let mut engine = stopped();
    let effects = engine.window_event(&WindowEvent::Other);
    assert_eq!(effects, vec![TableEffect::RequestRedraw]);
    assert_eq!(engine.state(), &EngineState::Stopped);
}

#[test]
fn close_request_while_stopped_exits_and_asks_for_a_redraw() {
    let mut engine = stopped();
    let effects = engine.window_event(&WindowEvent::CloseRequested);
    assert_eq!(effects, vec![TableEffect::Exit, TableEffect::RequestRedraw]);
}

#[test]
fn stop_twice_is_reported_and_changes_nothing() {
    let mut engine = running();
    assert!(engine.send(TableSignal::Stop).is_ok());
    assert!(engine.send(TableSignal::Stop).is_ok());
    engine.window_event(&WindowEvent::Other);
    assert_eq!(engine.state(), &EngineState::Stopped);
    let effects = engine.window_event(&WindowEvent::Other);
    assert_eq!(
        effects,
        vec![TableEffect::Report(Diagnostic::AlreadyStopped), TableEffect::RequestRedraw]
    );
    assert_eq!(engine.state(), &EngineState::Stopped);
    assert!(engine.queued_signals().is_empty());
}

#[test]
fn start_while_stopped_launches_and_leaves_the_rest_on_the_channel() {
    let mut engine = stopped();
    assert!(engine.send(TableSignal::Stop).is_ok());
    assert!(engine
        .send(TableSignal::Start { window_attributes: 8, system_pipeline_args: 9 })
        .is_ok());
    assert!(engine.send(TableSignal::queued('z')).is_ok());
    let effects = engine.window_event(&WindowEvent::Other);
    assert_eq!(
        effects,
        vec![
            TableEffect::Report(Diagnostic::AlreadyStopped),
            TableEffect::Launch { window_attributes: 8, system_pipeline_args: 9 }
        ]
    );
    assert_eq!(engine.state(), &EngineState::InitializingPipeline { completed: false });
    assert_eq!(engine.waiting(), Some(1));
    assert!(engine.queued_signals().is_empty());
}

#[test]
fn resume_is_reported_in_every_state_but_pre_init() {
    for mut engine in [initializing(), running(), stopped()] {
        let effects = engine.resumed();
        assert_eq!(effects, vec![TableEffect::Report(Diagnostic::AlreadyInitialized)]);
    }
    assert_eq!(running().resumed(), vec![TableEffect::Report(Diagnostic::AlreadyInitialized)]);
}

#[test]
fn engine_without_channel_runs_and_ignores_nothing() {
    let mut engine: TableEngine = Engine::new(1, 2);
    engine.resumed();
    engine.pipeline_initialized();
    engine.window_event(&WindowEvent::RedrawRequested);
    assert_eq!(engine.state(), &EngineState::Running);
    let effects = engine.window_event(&WindowEvent::RedrawRequested);
    assert_eq!(
        effects,
        vec![
            TableEffect::PipelineWindowEvent,
            TableEffect::AccumulateWindowEvent,
            TableEffect::PipelineUpdate,
            TableEffect::CommitInput
        ]
    );
    assert_eq!(engine.waiting(), None);
}
