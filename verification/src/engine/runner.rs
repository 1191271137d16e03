//! Assembles an engine from its parts.

use vstd::prelude::*;
use std::collections::VecDeque;
use crate::engine::lifecycle::Engine;
use crate::engine::model::EngineModel;
use crate::engine::model::EngineState;
use crate::engine::signal::Comparison;
use crate::engine::signal::InSignal;

verus! {

/// Collects the window attributes, the arguments of the pipeline and the
/// channels, and builds the engine once the arguments are there.
///
/// `T`, `U` and `V` record which parts have been given.
pub struct Runner<W, T, U, V> {
    window_attributes: W,
    system_pipeline: T,
    rx: U,
    tx: V,
}

/// No pipeline has been chosen yet.
pub struct NoSystemPipeline;

/// The arguments for the pipeline's initialization.
pub struct WithSystemPipeline<A>(pub A);

/// The engine gets no incoming channel.
pub struct NoRx;

/// The incoming channel, with the signals that already wait on it.
pub struct WithRx<W, A, S, F>(pub VecDeque<InSignal<W, A, S, F>>);

/// The engine gets no outgoing sender.
pub struct NoTx;

/// The outgoing sender.
pub struct WithTx<O>(pub O);

impl<W> Runner<W, NoSystemPipeline, NoRx, NoTx> {
    /// A runner with the window attributes and nothing else.
    pub fn new(window_attributes: W) -> (runner: Self)
        ensures
            runner.window_attributes() == window_attributes,
    {
        Runner { window_attributes, system_pipeline: NoSystemPipeline, rx: NoRx, tx: NoTx }
    }
}

impl<W, T, U, V> Runner<W, T, U, V> {
    /// The window attributes.
    pub closed spec fn window_attributes(self) -> W {
        self.window_attributes
    }

    /// The pipeline part.
    pub closed spec fn system_pipeline(self) -> T {
        self.system_pipeline
    }

    /// The incoming part.
    pub closed spec fn rx(self) -> U {
        self.rx
    }

    /// The outgoing part.
    pub closed spec fn tx(self) -> V {
        self.tx
    }

    /// Sets the window attributes.
    pub fn with_window_attributes(self, window_attributes: W) -> (runner: Self)
        ensures
            runner.window_attributes() == window_attributes,
            runner.system_pipeline() == self.system_pipeline(),
            runner.rx() == self.rx(),
            runner.tx() == self.tx(),
    {
        Runner {
            window_attributes,
            system_pipeline: self.system_pipeline,
            rx: self.rx,
            tx: self.tx,
        }
    }

    /// Sets the arguments for the pipeline's initialization.
    pub fn with_system_pipeline<A>(self, args: A) -> (runner: Runner<
        W,
        WithSystemPipeline<A>,
        U,
        V,
    >)
        ensures
            runner.window_attributes() == self.window_attributes(),
            runner.system_pipeline() == WithSystemPipeline(args),
            runner.rx() == self.rx(),
            runner.tx() == self.tx(),
    {
        Runner {
            window_attributes: self.window_attributes,
            system_pipeline: WithSystemPipeline(args),
            rx: self.rx,
            tx: self.tx,
        }
    }

    /// Sets the incoming channel, on which `rx` already waits.
    pub fn with_rx<A, S, F>(self, rx: VecDeque<InSignal<W, A, S, F>>) -> (runner: Runner<
        W,
        T,
        WithRx<W, A, S, F>,
        V,
    >)
        ensures
            runner.window_attributes() == self.window_attributes(),
            runner.system_pipeline() == self.system_pipeline(),
            runner.rx() == WithRx(rx),
            runner.tx() == self.tx(),
    {
        Runner {
            window_attributes: self.window_attributes,
            system_pipeline: self.system_pipeline,
            rx: WithRx(rx),
            tx: self.tx,
        }
    }

    /// Sets the outgoing sender.
    pub fn with_tx<O>(self, tx: O) -> (runner: Runner<W, T, U, WithTx<O>>)
        ensures
            runner.window_attributes() == self.window_attributes(),
            runner.system_pipeline() == self.system_pipeline(),
            runner.rx() == self.rx(),
            runner.tx() == WithTx(tx),
    {
        Runner {
            window_attributes: self.window_attributes,
            system_pipeline: self.system_pipeline,
            rx: self.rx,
            tx: WithTx(tx),
        }
    }
}

impl<W, A, S, F: Comparison<S>, O> Runner<
    W,
    WithSystemPipeline<A>,
    WithRx<W, A, S, F>,
    WithTx<O>,
> {
    /// The engine with both channels, in `PreInit`, for the host to drive.
    pub fn engine(self) -> (engine: Engine<W, A, S, F, O>)
        ensures
            engine.wf(),
            engine@ == (EngineModel::<W, A, S, F, O> {
                state: EngineState::PreInit {
                    window_attributes: self.window_attributes(),
                    system_pipeline_args: self.system_pipeline().0,
                },
                rx: Some(self.rx().0@),
                tx: Some(self.tx().0),
                queued_signals: Seq::empty(),
            }),
    {
        Engine::new(self.window_attributes, self.system_pipeline.0).with_rx(self.rx.0).with_tx(
            self.tx.0,
        )
    }
}

impl<W, A> Runner<W, WithSystemPipeline<A>, NoRx, NoTx> {
    /// The engine without channels, in `PreInit`, for the host to drive. Only
    /// a close request ends such an engine.
    pub fn engine<S, F: Comparison<S>, O>(self) -> (engine: Engine<W, A, S, F, O>)
        ensures
            engine.wf(),
            engine@ == (EngineModel::<W, A, S, F, O> {
                state: EngineState::PreInit {
                    window_attributes: self.window_attributes(),
                    system_pipeline_args: self.system_pipeline().0,
                },
                rx: None,
                tx: None,
                queued_signals: Seq::empty(),
            }),
    {
        Engine::new(self.window_attributes, self.system_pipeline.0)
    }
}

} // verus!
