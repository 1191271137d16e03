//! The pipeline of the demonstration: a display, a cursor lock and a pyramid.
//!
//! The host adds what draws and what measures time, and calls in here for
//! every decision.

use vstd::prelude::*;
use crate::engine::event::WindowEvent;
use crate::systems::handlers::cursor_lock::CursorLock;
use crate::systems::handlers::display::Display;
use crate::systems::handlers::pyramid::Pyramid;
use crate::systems::handlers::pyramid::PyramidModel;
use crate::systems::handlers::pyramid::PyramidWrites;
use crate::systems::input::InputSnapshot;
use crate::systems::signal::Signal;

verus! {

/// What the opening of a frame asks of the host.
#[derive(Debug, Clone, Copy, PartialEq, Eq, Structural)]
pub struct FrameStart {
    /// The surface has to be configured again, with the display's new size.
    pub configure_surface: bool,
    /// The cursor is to be locked.
    pub lock_cursor: bool,
}

/// Pipeline. `H` is the handle of the window, `C` the type of the clear
/// colour, `T` that of the pyramid's transform, `X` that of its lengths.
pub struct Pipeline<H, C, T, X> {
    display: Display<H, C>,
    cursor_lock: CursorLock<H>,
    pyramid: Pyramid<T, X>,
}

impl<H, C, T, X> Pipeline<H, C, T, X> {
    /// The display.
    pub closed spec fn spec_display(&self) -> Display<H, C> {
        self.display
    }

    /// The cursor lock.
    pub closed spec fn spec_cursor_lock(&self) -> CursorLock<H> {
        self.cursor_lock
    }

    /// The pyramid.
    pub closed spec fn spec_pyramid(&self) -> Pyramid<T, X> {
        self.pyramid
    }

    /// A pipeline of the three handlers.
    pub fn new(
        display: Display<H, C>,
        cursor_lock: CursorLock<H>,
        pyramid: Pyramid<T, X>,
    ) -> (pipeline: Self)
        ensures
            pipeline.spec_display() == display,
            pipeline.spec_cursor_lock() == cursor_lock,
            pipeline.spec_pyramid() == pyramid,
    {
        Pipeline { display, cursor_lock, pyramid }
    }

    /// The display.
    pub fn display(&self) -> (display: &Display<H, C>)
        ensures
            *display == self.spec_display(),
    {
        &self.display
    }

    /// The cursor lock.
    pub fn cursor_lock(&self) -> (cursor_lock: &CursorLock<H>)
        ensures
            *cursor_lock == self.spec_cursor_lock(),
    {
        &self.cursor_lock
    }

    /// The cursor lock, to take the platform's answers.
    pub fn cursor_lock_mut(&mut self) -> (cursor_lock: &mut CursorLock<H>)
        ensures
            *cursor_lock == old(self).spec_cursor_lock(),
            final(self).spec_cursor_lock() == *final(cursor_lock),
            final(self).spec_display() == old(self).spec_display(),
            final(self).spec_pyramid() == old(self).spec_pyramid(),
    {
        &mut self.cursor_lock
    }

    /// The pyramid.
    pub fn pyramid(&self) -> (pyramid: &Pyramid<T, X>)
        ensures
            *pyramid == self.spec_pyramid(),
    {
        &self.pyramid
    }

    /// The pyramid, to be changed.
    pub fn pyramid_mut(&mut self) -> (pyramid: &mut Pyramid<T, X>)
        ensures
            *pyramid == old(self).spec_pyramid(),
            final(self).spec_pyramid() == *final(pyramid),
            final(self).spec_display() == old(self).spec_display(),
            final(self).spec_cursor_lock() == old(self).spec_cursor_lock(),
    {
        &mut self.pyramid
    }

    /// Whether the window event unlocks the cursor: the loss of the focus does.
    pub fn window_event(&self, event: &WindowEvent) -> (unlock: bool)
        ensures
            unlock == (*event == WindowEvent::Focused(false)),
    {
        self.cursor_lock.window_event(event)
    }

    /// Opens a frame: takes over a new size of the window, and says whether
    /// the surface has to be configured again and whether the cursor is to
    /// be locked.
    pub fn update(&mut self, input: &InputSnapshot) -> (frame: FrameStart)
        ensures
            frame.configure_surface == (input.window_resized matches Some(size) && size.width > 0
                && size.height > 0),
            frame.lock_cursor == (!old(self).spec_cursor_lock().spec_is_cursor_locked() && old(
                self,
            ).spec_cursor_lock().spec_should_lock_cursor() && input.mouse_left_pressed
                && input.cursor_present),
            final(self).spec_cursor_lock() == old(self).spec_cursor_lock(),
            final(self).spec_pyramid() == old(self).spec_pyramid(),
            final(self).spec_display().spec_window() == old(self).spec_display().spec_window(),
            final(self).spec_display().spec_clear_color() == old(
                self,
            ).spec_display().spec_clear_color(),
            final(self).spec_display().spec_size() == if frame.configure_surface {
                input.window_resized->0
            } else {
                old(self).spec_display().spec_size()
            },
            final(self).spec_display().spec_config() == if frame.configure_surface {
                input.window_resized->0
            } else {
                old(self).spec_display().spec_config()
            },
    {
        let configure_surface = self.display.update(input);
        let lock_cursor = self.cursor_lock.wants_lock(input);
        FrameStart { configure_surface, lock_cursor }
    }

    /// Whether the camera moves in this frame: it does while the cursor is
    /// locked, and in a frame in which the window was resized.
    pub fn camera_moves(&self, input: &InputSnapshot) -> (moves: bool)
        ensures
            moves == (self.spec_cursor_lock().spec_is_cursor_locked()
                || input.window_resized is Some),
    {
        self.cursor_lock.is_cursor_locked() || input.window_resized.is_some()
    }

    /// Says what has to be written to the graphics device before the pyramid
    /// is drawn, and counts it as written.
    pub fn render(&mut self) -> (writes: PyramidWrites)
        ensures
            writes == old(self).spec_pyramid().dirty(),
            final(self).spec_pyramid().dirty() == (PyramidWrites {
                transform: false,
                model: false,
            }),
            final(self).spec_pyramid().spec_transform() == old(
                self,
            ).spec_pyramid().spec_transform(),
            final(self).spec_pyramid().spec_model() == old(self).spec_pyramid().spec_model(),
            final(self).spec_display() == old(self).spec_display(),
            final(self).spec_cursor_lock() == old(self).spec_cursor_lock(),
    {
        self.pyramid.render()
    }

    /// Takes a signal. An update of the transform or of the model goes to the
    /// pyramid; a resize comes back, for the host to ask the window with.
    pub fn in_signal<R>(&mut self, signal: Signal<R, T, PyramidModel<X>>) -> (resize: Option<R>)
        ensures
            final(self).spec_display() == old(self).spec_display(),
            final(self).spec_cursor_lock() == old(self).spec_cursor_lock(),
            match signal {
                Signal::Resize(size) => resize == Some(size) && final(self).spec_pyramid() == old(
                    self,
                ).spec_pyramid(),
                Signal::PyramidTransformUpdate(transform) => {
                    &&& resize is None
                    &&& final(self).spec_pyramid().spec_transform() == transform
                    &&& final(self).spec_pyramid().spec_model() == old(
                        self,
                    ).spec_pyramid().spec_model()
                    &&& final(self).spec_pyramid().dirty() == (PyramidWrites {
                        transform: true,
                        ..old(self).spec_pyramid().dirty()
                    })
                },
                Signal::PyramidModelUpdate(model) => {
                    &&& resize is None
                    &&& final(self).spec_pyramid().spec_model() == model
                    &&& final(self).spec_pyramid().spec_transform() == old(
                        self,
                    ).spec_pyramid().spec_transform()
                    &&& final(self).spec_pyramid().dirty() == (PyramidWrites {
                        model: true,
                        ..old(self).spec_pyramid().dirty()
                    })
                },
            },
    {
        match signal {
            Signal::Resize(size) => Some(size),
            Signal::PyramidTransformUpdate(transform) => {
                self.pyramid.set_transform(transform);
                None
            },
            Signal::PyramidModelUpdate(model) => {
                self.pyramid.set_model(model);
                None
            },
        }
    }
}

} // verus!
