//! The signals of the demonstration pipeline.

use vstd::prelude::*;
use crate::engine::signal::replace_in;
use crate::engine::signal::Comparison;
use crate::engine::signal::InSignal;
use crate::engine::signal::QueueBehavior;

verus! {

/// A signal to or from the pipeline. `R`, `T` and `M` are what a resize, an
/// update of the pyramid's transform and an update of its model carry.
#[derive(Debug)]
pub enum Signal<R, T, M> {
    /// The window is to take a new size.
    Resize(R),
    /// The pyramid is to take a new transform.
    PyramidTransformUpdate(T),
    /// The pyramid is to take a new model.
    PyramidModelUpdate(M),
}

/// The comparison of a resize: a new resize replaces a waiting one, and
/// nothing else replaces anything.
#[derive(Debug, Clone, Copy)]
pub struct SupersedesResize;

impl<R, T, M> Comparison<Signal<R, T, M>> for SupersedesResize {
    open spec fn matches(&self, new: Signal<R, T, M>, existing: Signal<R, T, M>) -> bool {
        new is Resize && existing is Resize
    }

    fn replaces(&self, new: &Signal<R, T, M>, existing: &Signal<R, T, M>) -> (replaced: bool) {
        new.is_resize() && existing.is_resize()
    }
}

impl<R, T, M> Signal<R, T, M> {
    /// Whether this is a resize.
    pub fn is_resize(&self) -> (is: bool)
        ensures
            is == (self is Resize),
    {
        match self {
            Signal::Resize(_) => true,
            _ => false,
        }
    }

    /// Whether this is an update of the pyramid's transform.
    pub fn is_pyramid_transform_update(&self) -> (is: bool)
        ensures
            is == (self is PyramidTransformUpdate),
    {
        match self {
            Signal::PyramidTransformUpdate(_) => true,
            _ => false,
        }
    }

    /// Whether this is an update of the pyramid's model.
    pub fn is_pyramid_model_update(&self) -> (is: bool)
        ensures
            is == (self is PyramidModelUpdate),
    {
        match self {
            Signal::PyramidModelUpdate(_) => true,
            _ => false,
        }
    }

    /// This signal as the engine takes it. A resize replaces the resizes that
    /// wait while the engine is stopped; the updates are discarded then.
    pub fn in_signal<W, A>(self) -> (signal: InSignal<W, A, Self, SupersedesResize>)
        ensures
            signal == (InSignal::<W, A, Self, SupersedesResize>::Custom {
                signal: self,
                queue: if self is Resize {
                    QueueBehavior::Replace(SupersedesResize)
                } else {
                    QueueBehavior::Ignored
                },
            }),
    {
        if self.is_resize() {
            InSignal::Custom { signal: self, queue: QueueBehavior::Replace(SupersedesResize) }
        } else {
            InSignal::Custom { signal: self, queue: QueueBehavior::Ignored }
        }
    }

    /// This signal as the pipeline sends it out.
    pub fn out_signal(self) -> (signal: Self)
        ensures
            signal == self,
    {
        self
    }
}

/// After a resize has arrived at a stopped engine it is the only resize that
/// waits, and it waits last; the other signals wait as before.
pub proof fn law_resize_supersedes_resizes<R, T, M>(
    waiting: Seq<Signal<R, T, M>>,
    new: Signal<R, T, M>,
)
    requires
        new is Resize,
    ensures
        replace_in(waiting, SupersedesResize, new) == waiting.filter(
            |existing: Signal<R, T, M>| !(existing is Resize),
        ).push(new),
    decreases waiting.len(),
{
    reveal(Seq::filter);
    if waiting.len() > 0 {
        law_resize_supersedes_resizes(waiting.drop_last(), new);
        assert(waiting.drop_last().filter(|existing: Signal<R, T, M>| !(existing is Resize)).push(
            new,
        ).drop_last() == waiting.drop_last().filter(
            |existing: Signal<R, T, M>| !(existing is Resize),
        ));
    }
}

} // verus!
