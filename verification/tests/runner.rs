use std::collections::VecDeque;

use pyramid_engine::engine::runner::NoRx;
use pyramid_engine::engine::runner::NoSystemPipeline;
use pyramid_engine::engine::runner::NoTx;
use pyramid_engine::engine::Comparison;
use pyramid_engine::engine::Engine;
use pyramid_engine::engine::EngineState;
use pyramid_engine::engine::InSignal;
use pyramid_engine::engine::Runner;

struct Always;

impl Comparison<u8> for Always {
    fn matches(&self, _new: u8, _existing: u8) -> bool {
        true
    }

    fn replaces(&self, _new: &u8, _existing: &u8) -> bool {
        true
    }
}

#[test]
fn runner_without_channels_builds_a_bare_engine() {
    let runner: Runner<&str, NoSystemPipeline, NoRx, NoTx> = Runner::new("title");
    let engine: Engine<&str, u32, u8, Always, ()> = runner.with_system_pipeline(60).engine();
    assert_eq!(
        engine.state(),
        &EngineState::PreInit { window_attributes: "title", system_pipeline_args: 60 }
    );
    assert_eq!(engine.waiting(), None);
    assert!(engine.tx().is_none());
}

#[test]
fn runner_with_channels_hands_them_to_the_engine() {
    let mut rx: VecDeque<InSignal<&str, u32, u8, Always>> = VecDeque::new();
    rx.push_back(InSignal::Stop);
    let engine = Runner::new("first")
        .with_window_attributes("second")
        .with_rx(rx)
        .with_system_pipeline(30)
        .with_tx('t')
        .engine();
    assert_eq!(
        engine.state(),
        &EngineState::PreInit { window_attributes: "second", system_pipeline_args: 30 }
    );
    assert_eq!(engine.waiting(), Some(1));
    assert_eq!(engine.tx(), Some(&'t'));
    assert!(engine.queued_signals().is_empty());
}
