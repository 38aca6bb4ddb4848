//! Command-line configuration.
use vstd::prelude::*;

verus! {

/// Pointer tracking backend chosen on the command line.
#[derive(Debug, Clone, Copy, PartialEq, Eq, Structural)]
pub enum BackendKind {
    /// Pick the best available backend: the ScreenCast portal when it offers
    /// cursor metadata, otherwise only surface-local pointer events.
    Auto,
    /// Track the pointer only while it is over the WayEyes surface.
    Local,
    /// Force the ScreenCast portal and PipeWire cursor metadata backend.
    Portal,
}

impl BackendKind {
    /// Whether this choice asks the ScreenCast portal for global samples.
    pub open spec fn uses_portal(self) -> bool {
        self is Auto || self is Portal
    }

    /// Whether the window attaches the ScreenCast portal backend.
    pub fn attaches_portal(self) -> (r: bool)
        ensures
            r == self.uses_portal(),
    {
        match self {
            BackendKind::Auto => true,
            BackendKind::Local => false,
            BackendKind::Portal => true,
        }
    }
}

/// Initial window width in logical pixels when none is given.
pub const DEFAULT_WIDTH: i32 = 260;

/// Initial window height in logical pixels when none is given.
pub const DEFAULT_HEIGHT: i32 = 150;

/// Smallest default window width the window is created with.
pub const MIN_WINDOW_WIDTH: i32 = 120;

/// Smallest default window height the window is created with.
pub const MIN_WINDOW_HEIGHT: i32 = 80;

/// The options WayEyes is started with.
#[derive(Debug, Clone, Copy, PartialEq, Eq, Structural)]
pub struct Cli {
    /// Initial window width in logical pixels.
    pub width: i32,
    /// Initial window height in logical pixels.
    pub height: i32,
    /// Start without window decorations.
    pub undecorated: bool,
    /// Pointer tracking backend.
    pub backend: BackendKind,
}

impl Default for Cli {
    /// The options when nothing is given on the command line.
    fn default() -> (r: Cli)
        ensures
            r.width == DEFAULT_WIDTH,
            r.height == DEFAULT_HEIGHT,
            !r.undecorated,
            r.backend == BackendKind::Auto,
    {
        Cli { width: DEFAULT_WIDTH, height: DEFAULT_HEIGHT, undecorated: false, backend: BackendKind::Auto }
    }
}

impl Cli {
    /// The default width the window is created with: the requested width,
    /// but never below `MIN_WINDOW_WIDTH`.
    pub fn window_width(&self) -> (w: i32)
        ensures
            w == if self.width < MIN_WINDOW_WIDTH { MIN_WINDOW_WIDTH } else { self.width },
    {
        if self.width < MIN_WINDOW_WIDTH {
            MIN_WINDOW_WIDTH
        } else {
            self.width
        }
    }

    /// The default height the window is created with: the requested height,
    /// but never below `MIN_WINDOW_HEIGHT`.
    pub fn window_height(&self) -> (h: i32)
        ensures
            h == if self.height < MIN_WINDOW_HEIGHT { MIN_WINDOW_HEIGHT } else { self.height },
    {
        if self.height < MIN_WINDOW_HEIGHT {
            MIN_WINDOW_HEIGHT
        } else {
            self.height
        }
    }

    /// Whether the window attaches the ScreenCast portal backend.
    pub fn attaches_portal(&self) -> (r: bool)
        ensures
            r == self.backend.uses_portal(),
    {
        self.backend.attaches_portal()
    }
}

} // verus!
