//! Locking the cursor to the window.
//!
//! The platform grabs the cursor; this handler decides when to ask, what to
//! ask for, and what to do with the answer.

use vstd::prelude::*;
use crate::engine::event::WindowEvent;
use crate::systems::input::InputSnapshot;

verus! {

/// How the cursor is held.
#[derive(Debug, Clone, Copy, PartialEq, Eq, Structural)]
pub enum CursorGrabMode {
    /// The cursor is free.
    Free,
    /// The cursor is kept inside the window.
    Confined,
    /// The cursor is held in place.
    Locked,
}

/// Why the platform did not grab the cursor.
#[derive(Debug, Clone, Copy, PartialEq, Eq, Structural)]
pub enum GrabError {
    /// The platform does not know this mode.
    NotSupported,
    /// Any other failure.
    Failed,
}

/// What follows an answer of the platform.
#[derive(Debug, Clone, Copy, PartialEq, Eq, Structural)]
pub enum GrabStep {
    /// The cursor is held as asked: show or hide it as `visible` says.
    Done { visible: bool },
    /// Ask again, for this mode.
    Retry(CursorGrabMode),
    /// Give up and hand the error on.
    Failed,
}

/// Handler for cursor locking. `H` is the handle of the window.
pub struct CursorLock<H> {
    window: H,
    should_lock_cursor: bool,
    is_cursor_locked: bool,
}

impl<H> CursorLock<H> {
    /// The window whose cursor is locked.
    pub closed spec fn spec_window(self) -> H {
        self.window
    }

    /// Whether a click into the window locks the cursor.
    pub closed spec fn spec_should_lock_cursor(&self) -> bool {
        self.should_lock_cursor
    }

    /// Whether the cursor is locked.
    pub closed spec fn spec_is_cursor_locked(&self) -> bool {
        self.is_cursor_locked
    }

    /// A handler for `window` whose cursor is free.
    pub fn new(window: H, should_lock_cursor: bool) -> (lock: Self)
        ensures
            lock.spec_window() == window,
            lock.spec_should_lock_cursor() == should_lock_cursor,
            !lock.spec_is_cursor_locked(),
    {
        CursorLock { window, should_lock_cursor, is_cursor_locked: false }
    }

    /// The window whose cursor is locked.
    pub fn window(&self) -> (window: &H)
        ensures
            *window == self.spec_window(),
    {
        &self.window
    }

    /// Whether a click into the window locks the cursor.
    #[verifier::when_used_as_spec(spec_should_lock_cursor)]
    pub fn should_lock_cursor(&self) -> (should: bool)
        ensures
            should == self.spec_should_lock_cursor(),
    {
        self.should_lock_cursor
    }

    /// Whether the cursor is locked.
    #[verifier::when_used_as_spec(spec_is_cursor_locked)]
    pub fn is_cursor_locked(&self) -> (locked: bool)
        ensures
            locked == self.spec_is_cursor_locked(),
    {
        self.is_cursor_locked
    }

    /// Sets whether a click locks the cursor, and says whether the cursor has
    /// to be unlocked now: it has where locking is switched off while the
    /// cursor is locked.
    pub fn set_should_lock_cursor(&mut self, should_lock_cursor: bool) -> (unlock: bool)
        ensures
            final(self).spec_should_lock_cursor() == should_lock_cursor,
            final(self).spec_is_cursor_locked() == old(self).spec_is_cursor_locked(),
            final(self).spec_window() == old(self).spec_window(),
            unlock == (!should_lock_cursor && old(self).spec_is_cursor_locked()),
    {
        self.should_lock_cursor = should_lock_cursor;
        !should_lock_cursor && self.is_cursor_locked
    }

    /// The mode to ask the platform for first: `Locked` to lock, `Free` to unlock.
    pub fn grab_mode(locked: bool) -> (mode: CursorGrabMode)
        ensures
            mode == if locked {
                CursorGrabMode::Locked
            } else {
                CursorGrabMode::Free
            },
    {
        if locked {
            CursorGrabMode::Locked
        } else {
            CursorGrabMode::Free
        }
    }

    /// Takes the platform's answer to a grab in mode `asked`, made to lock
    /// (`locked`) or to unlock the cursor.
    ///
    /// On success the cursor counts as locked or unlocked, and is to be shown
    /// exactly when it is unlocked. A platform that does not support `Locked`
    /// is asked for `Confined` instead. Every other failure leaves the handler
    /// as it was.
    pub fn set_cursor_locked(
        &mut self,
        locked: bool,
        asked: CursorGrabMode,
        answer: Result<(), GrabError>,
    ) -> (step: GrabStep)
        ensures
            final(self).spec_window() == old(self).spec_window(),
            final(self).spec_should_lock_cursor() == old(self).spec_should_lock_cursor(),
            step == Self::grab_step(locked, asked, answer),
            final(self).spec_is_cursor_locked() == if answer is Ok {
                locked
            } else {
                old(self).spec_is_cursor_locked()
            },
    {
        match answer {
            Ok(()) => {
                self.is_cursor_locked = locked;
                GrabStep::Done { visible: !locked }
            },
            Err(GrabError::NotSupported) => {
                match asked {
                    CursorGrabMode::Locked => {
                        if locked {
                            GrabStep::Retry(CursorGrabMode::Confined)
                        } else {
                            GrabStep::Failed
                        }
                    },
                    _ => GrabStep::Failed,
                }
            },
            Err(GrabError::Failed) => GrabStep::Failed,
        }
    }

    /// What follows the platform's answer to a grab.
    pub open spec fn grab_step(
        locked: bool,
        asked: CursorGrabMode,
        answer: Result<(), GrabError>,
    ) -> GrabStep {
        if answer is Ok {
            GrabStep::Done { visible: !locked }
        } else if locked && asked == CursorGrabMode::Locked && answer == Err::<(), GrabError>(
            GrabError::NotSupported,
        ) {
            GrabStep::Retry(CursorGrabMode::Confined)
        } else {
            GrabStep::Failed
        }
    }

    /// Whether the window event unlocks the cursor: the loss of the focus does.
    pub fn window_event(&self, event: &WindowEvent) -> (unlock: bool)
        ensures
            unlock == (*event == WindowEvent::Focused(false)),
    {
        match event {
            WindowEvent::Focused(false) => true,
            _ => false,
        }
    }

    /// Whether this frame locks the cursor: a left click into the window
    /// does, where locking is switched on and the cursor is free.
    pub fn wants_lock(&self, input: &InputSnapshot) -> (lock: bool)
        ensures
            lock == (!self.spec_is_cursor_locked() && self.spec_should_lock_cursor()
                && input.mouse_left_pressed && input.cursor_present),
    {
        !self.is_cursor_locked && self.should_lock_cursor && input.mouse_left_pressed
            && input.cursor_present
    }

    /// Whether this frame unlocks the cursor: escape or tab does, while the
    /// cursor is locked.
    pub fn wants_unlock(&self, input: &InputSnapshot) -> (unlock: bool)
        ensures
            unlock == (self.spec_is_cursor_locked() && (input.escape_pressed
                || input.tab_pressed)),
    {
        self.is_cursor_locked && (input.escape_pressed || input.tab_pressed)
    }
}

/// Builder of [`CursorLock`]. `T` records whether the window has been given.
pub struct CursorLockBuilder<T> {
    window: T,
    should_lock_cursor: bool,
    is_cursor_locked: bool,
}

/// No window has been given yet.
pub struct NoWindow;

/// The window.
pub struct WithWindow<H>(pub H);

impl CursorLockBuilder<NoWindow> {
    /// A builder without a window, for a handler that does not lock.
    pub fn new() -> (builder: Self)
        ensures
            !builder.spec_should_lock_cursor(),
    {
        CursorLockBuilder { window: NoWindow, should_lock_cursor: false, is_cursor_locked: false }
    }
}

impl<T> CursorLockBuilder<T> {
    /// The window part.
    pub closed spec fn spec_window(self) -> T {
        self.window
    }

    /// Whether the handler will lock on a click.
    pub closed spec fn spec_should_lock_cursor(self) -> bool {
        self.should_lock_cursor
    }

    /// Sets the window.
    pub fn with_window<H>(self, window: H) -> (builder: CursorLockBuilder<WithWindow<H>>)
        ensures
            builder.spec_window() == WithWindow(window),
            builder.spec_should_lock_cursor() == self.spec_should_lock_cursor(),
    {
        CursorLockBuilder {
            window: WithWindow(window),
            should_lock_cursor: self.should_lock_cursor,
            is_cursor_locked: self.is_cursor_locked,
        }
    }

    /// Sets whether a click into the window locks the cursor.
    pub fn with_should_lock_cursor(self, should_lock_cursor: bool) -> (builder: Self)
        ensures
            builder.spec_window() == self.spec_window(),
            builder.spec_should_lock_cursor() == should_lock_cursor,
    {
        let mut builder = self;
        builder.should_lock_cursor = should_lock_cursor;
        builder
    }
}

impl<H> CursorLockBuilder<WithWindow<H>> {
    /// The handler, with its cursor free.
    pub fn build(self) -> (lock: CursorLock<H>)
        ensures
            lock.spec_window() == self.spec_window().0,
            lock.spec_should_lock_cursor() == self.spec_should_lock_cursor(),
            !lock.spec_is_cursor_locked(),
    {
        CursorLock::new(self.window.0, self.should_lock_cursor)
    }
}

} // verus!
