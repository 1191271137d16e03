//! Signals that an outside controller sends to the engine.

use vstd::prelude::*;

verus! {

/// What becomes of a custom signal that arrives while the engine is stopped.
///
/// `F` is the type of the comparison used by [`QueueBehavior::Replace`]. It is
/// called with the new signal first and a waiting signal second.
#[derive(Debug, Clone, Copy)]
pub enum QueueBehavior<F> {
    /// The signal is discarded.
    Ignored,
    /// Every waiting signal that the comparison matches is removed, then the
    /// signal is appended.
    Replace(F),
    /// The signal is appended to the waiting signals.
    Queued,
}

/// A message on the control channel.
///
/// `W` describes a window, `A` holds the arguments of the pipeline's
/// initialization, `S` is the application's own signal.
#[derive(Debug, Clone)]
pub enum InSignal<W, A, S, F> {
    /// Start or restart the engine.
    Start { window_attributes: W, system_pipeline_args: A },
    /// Stop the engine.
    Stop,
    /// A signal of the application, with the behaviour its author chose for it.
    Custom { signal: S, queue: QueueBehavior<F> },
}

/// A comparison between a new signal and a waiting one, as
/// [`QueueBehavior::Replace`] carries it.
///
/// `matches` says what the comparison means and is what contracts speak of;
/// `replaces` is what runs, and answers as `matches` says. An implementation
/// outside verified code gives both the same answer.
pub trait Comparison<S> {
    /// Whether `new` replaces `existing`.
    spec fn matches(&self, new: S, existing: S) -> bool;

    /// Whether `new` replaces `existing`.
    fn replaces(&self, new: &S, existing: &S) -> (replaced: bool)
        ensures
            replaced == self.matches(*new, *existing),
    ;
}

/// The waiting signals that `new` does not replace, in their order.
pub open spec fn kept<S, F: Comparison<S>>(waiting: Seq<S>, p: F, new: S) -> Seq<S> {
    waiting.filter(|existing: S| !p.matches(new, existing))
}

/// The waiting signals after `new` has arrived with comparison `p`.
pub open spec fn replace_in<S, F: Comparison<S>>(waiting: Seq<S>, p: F, new: S) -> Seq<S> {
    kept(waiting, p, new).push(new)
}

impl<F> QueueBehavior<F> {
    /// The waiting signals after `signal` has arrived with this behaviour.
    pub open spec fn enqueue<S>(self, waiting: Seq<S>, signal: S) -> Seq<S> where
        F: Comparison<S>,
     {
        match self {
            QueueBehavior::Ignored => waiting,
            QueueBehavior::Replace(p) => replace_in(waiting, p, signal),
            QueueBehavior::Queued => waiting.push(signal),
        }
    }
}

impl<W, A, S, F> InSignal<W, A, S, F> {
    /// A start signal.
    pub fn start(window_attributes: W, system_pipeline_args: A) -> (signal: Self)
        ensures
            signal == (InSignal::<W, A, S, F>::Start { window_attributes, system_pipeline_args }),
    {
        InSignal::Start { window_attributes, system_pipeline_args }
    }

    /// A stop signal.
    pub fn stop() -> (signal: Self)
        ensures
            signal == InSignal::<W, A, S, F>::Stop,
    {
        InSignal::Stop
    }

    /// A custom signal that is discarded while the engine is stopped.
    pub fn ignored(signal: S) -> (s: Self)
        ensures
            s == (InSignal::<W, A, S, F>::Custom { signal, queue: QueueBehavior::Ignored }),
    {
        InSignal::Custom { signal, queue: QueueBehavior::Ignored }
    }

    /// A custom signal that waits in the queue while the engine is stopped.
    pub fn queued(signal: S) -> (s: Self)
        ensures
            s == (InSignal::<W, A, S, F>::Custom { signal, queue: QueueBehavior::Queued }),
    {
        InSignal::Custom { signal, queue: QueueBehavior::Queued }
    }

    /// A custom signal that replaces the waiting signals that `p` matches.
    pub fn replacing(signal: S, p: F) -> (s: Self)
        ensures
            s == (InSignal::<W, A, S, F>::Custom { signal, queue: QueueBehavior::Replace(p) }),
    {
        InSignal::Custom { signal, queue: QueueBehavior::Replace(p) }
    }
}

} // verus!
