//! The size of the drawing surface.
//!
//! The host owns the surface; this handler keeps its size and decides when
//! it has to be configured again.

use vstd::prelude::*;
use crate::systems::input::InputSnapshot;
use crate::systems::input::PhysicalSize;

verus! {

/// `side`, but at least one pixel.
pub open spec fn at_least_one(side: u32) -> u32 {
    if side == 0 {
        1
    } else {
        side
    }
}

/// Handler for the display. `H` is the handle of the window, `C` the type of
/// the colour that clears a frame.
pub struct Display<H, C> {
    window: H,
    clear_color: C,
    size: PhysicalSize,
    config: PhysicalSize,
}

impl<H, C> Display<H, C> {
    /// The window that is drawn to.
    pub closed spec fn spec_window(&self) -> H {
        self.window
    }

    /// The colour that clears a frame.
    pub closed spec fn spec_clear_color(&self) -> C {
        self.clear_color
    }

    /// The size of the window as it was last taken over.
    pub closed spec fn spec_size(&self) -> PhysicalSize {
        self.size
    }

    /// The size that the surface is configured with.
    pub closed spec fn spec_config(&self) -> PhysicalSize {
        self.config
    }

    /// A handler for a window of the given size. The surface is configured
    /// with that size, each side at least one pixel.
    pub fn new(window: H, clear_color: C, size: PhysicalSize) -> (display: Self)
        ensures
            display.spec_window() == window,
            display.spec_clear_color() == clear_color,
            display.spec_size() == size,
            display.spec_config() == (PhysicalSize {
                width: at_least_one(size.width),
                height: at_least_one(size.height),
            }),
    {
        let width = if size.width == 0 {
            1
        } else {
            size.width
        };
        let height = if size.height == 0 {
            1
        } else {
            size.height
        };
        Display { window, clear_color, size, config: PhysicalSize { width, height } }
    }

    /// The window that is drawn to.
    pub fn window(&self) -> (window: &H)
        ensures
            *window == self.spec_window(),
    {
        &self.window
    }

    /// The colour that clears a frame.
    pub fn clear_color(&self) -> (clear_color: &C)
        ensures
            *clear_color == self.spec_clear_color(),
    {
        &self.clear_color
    }

    /// The size of the window as it was last taken over.
    #[verifier::when_used_as_spec(spec_size)]
    pub fn size(&self) -> (size: PhysicalSize)
        ensures
            size == self.spec_size(),
    {
        self.size
    }

    /// The size that the surface is configured with.
    #[verifier::when_used_as_spec(spec_config)]
    pub fn config(&self) -> (config: PhysicalSize)
        ensures
            config == self.spec_config(),
    {
        self.config
    }

    /// Takes over a new size of the window and says whether the surface has
    /// to be configured again. A size with an empty side is passed over.
    pub fn resize(&mut self, size: PhysicalSize) -> (configure: bool)
        ensures
            configure == (size.width > 0 && size.height > 0),
            final(self).spec_window() == old(self).spec_window(),
            final(self).spec_clear_color() == old(self).spec_clear_color(),
            final(self).spec_size() == if configure {
                size
            } else {
                old(self).spec_size()
            },
            final(self).spec_config() == if configure {
                size
            } else {
                old(self).spec_config()
            },
    {
        if size.width > 0 && size.height > 0 {
            self.size = size;
            self.config = size;
            true
        } else {
            false
        }
    }

    /// Takes over the size from the input of a frame in which the window was
    /// resized, as [`Display::resize`] does.
    pub fn update(&mut self, input: &InputSnapshot) -> (configure: bool)
        ensures
            configure == (input.window_resized matches Some(size) && size.width > 0 && size.height
                > 0),
            final(self).spec_window() == old(self).spec_window(),
            final(self).spec_clear_color() == old(self).spec_clear_color(),
            final(self).spec_size() == if configure {
                input.window_resized->0
            } else {
                old(self).spec_size()
            },
            final(self).spec_config() == if configure {
                input.window_resized->0
            } else {
                old(self).spec_config()
            },
    {
        match input.window_resized {
            Some(size) => self.resize(size),
            None => false,
        }
    }
}

/// Builder of [`Display`]. `T` records whether the window has been given.
pub struct DisplayBuilder<T, C> {
    window: T,
    clear_color: C,
}

/// No window has been given yet.
pub struct NoWindow;

/// The window.
pub struct WithWindow<H>(pub H);

impl<C> DisplayBuilder<NoWindow, C> {
    /// A builder without a window.
    pub fn new(clear_color: C) -> (builder: Self)
        ensures
            builder.spec_clear_color() == clear_color,
    {
        DisplayBuilder { window: NoWindow, clear_color }
    }
}

impl<T, C> DisplayBuilder<T, C> {
    /// The window part.
    pub closed spec fn spec_window(self) -> T {
        self.window
    }

    /// The colour that clears a frame.
    pub closed spec fn spec_clear_color(self) -> C {
        self.clear_color
    }

    /// Sets the window.
    pub fn with_window<H>(self, window: H) -> (builder: DisplayBuilder<WithWindow<H>, C>)
        ensures
            builder.spec_window() == WithWindow(window),
            builder.spec_clear_color() == self.spec_clear_color(),
    {
        DisplayBuilder { window: WithWindow(window), clear_color: self.clear_color }
    }

    /// Sets the colour that clears a frame.
    pub fn with_clear_color(self, clear_color: C) -> (builder: Self)
        ensures
            builder.spec_window() == self.spec_window(),
            builder.spec_clear_color() == clear_color,
    {
        DisplayBuilder { window: self.window, clear_color }
    }
}

impl<H, C> DisplayBuilder<WithWindow<H>, C> {
    /// The handler for the window, which has the given size.
    pub fn build(self, size: PhysicalSize) -> (display: Display<H, C>)
        ensures
            display.spec_window() == self.spec_window().0,
            display.spec_clear_color() == self.spec_clear_color(),
            display.spec_size() == size,
            display.spec_config() == (PhysicalSize {
                width: at_least_one(size.width),
                height: at_least_one(size.height),
            }),
    {
        Display::new(self.window.0, self.clear_color, size)
    }
}

} // verus!
