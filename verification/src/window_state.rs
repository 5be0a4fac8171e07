//! Window geometry: the persisted size and position, the minimum size they
//! are clamped to on load, and the live window a running session tracks.
use vstd::prelude::*;

verus! {

/// Smallest width a restored window may have.
pub const MIN_WIDTH: u32 = 426;

/// Smallest height a restored window may have.
pub const MIN_HEIGHT: u32 = 420;

/// A window size in logical pixels.
#[derive(Clone, Copy, Debug, PartialEq, Eq, Structural)]
pub struct Size {
    pub width: u32,
    pub height: u32,
}

/// A window position in logical pixels; coordinates may be negative on
/// multi-monitor setups.
#[derive(Clone, Copy, Debug, PartialEq, Eq, Structural)]
pub struct Point {
    pub x: i32,
    pub y: i32,
}

/// The window geometry that is persisted across runs.
#[derive(Clone, Copy, Debug, PartialEq, Eq, Structural)]
pub struct Window {
    pub position: Option<Point>,
    pub size: Size,
}

/// The size a fresh window opens with.
pub open spec fn spec_default_size() -> Size {
    Size { width: 1024, height: 768 }
}

/// The size a fresh window opens with.
pub fn default_size() -> (s: Size)
    ensures
        s == spec_default_size(),
{
    Size { width: 1024, height: 768 }
}

impl Default for Window {
    /// No remembered position, and the default size.
    fn default() -> (w: Window)
        ensures
            w == (Window { position: Option::<Point>::None, size: spec_default_size() }),
    {
        Window { position: None, size: default_size() }
    }
}

/// `s` widened and heightened to the minimum where it falls short.
pub open spec fn spec_clamped_size(s: Size) -> Size {
    Size {
        width: if s.width < MIN_WIDTH {
            MIN_WIDTH
        } else {
            s.width
        },
        height: if s.height < MIN_HEIGHT {
            MIN_HEIGHT
        } else {
            s.height
        },
    }
}

/// A position is kept only when both coordinates are non-negative.
pub open spec fn spec_kept_position(p: Option<Point>) -> Option<Point> {
    match p {
        Some(point) => if point.x >= 0 && point.y >= 0 {
            Some(point)
        } else {
            None
        },
        None => None,
    }
}

impl Window {
    /// What a loaded geometry is restored as: the size clamped to the
    /// minimum, and the position dropped when it lies off screen. The
    /// restored size never falls below the minimum in either direction.
    pub fn sanitized(self) -> (w: Window)
        ensures
            w.size == spec_clamped_size(self.size),
            w.position == spec_kept_position(self.position),
            w.size.width >= MIN_WIDTH,
            w.size.height >= MIN_HEIGHT,
    {
        let width = if self.size.width < MIN_WIDTH {
            MIN_WIDTH
        } else {
            self.size.width
        };
        let height = if self.size.height < MIN_HEIGHT {
            MIN_HEIGHT
        } else {
            self.size.height
        };
        let position = match self.position {
            Some(point) => if point.x >= 0 && point.y >= 0 {
                Some(point)
            } else {
                None
            },
            None => None,
        };
        Window { position, size: Size { width, height } }
    }
}

/// Something the windowing system reports about one window.
#[derive(Clone, Copy, Debug, PartialEq, Eq, Structural)]
pub enum WindowEvent {
    Moved(Point),
    Resized(Size),
    Focused,
    Unfocused,
    Opened { position: Option<Point>, size: Size },
    CloseRequested,
}

/// A live window of the running session.
#[derive(Clone, Copy, Debug, PartialEq, Eq, Structural)]
pub struct LiveWindow {
    pub id: u64,
    pub position: Option<Point>,
    pub size: Size,
    pub focused: bool,
}

impl LiveWindow {
    /// A just-created window: no known geometry yet, and not focused.
    pub fn new(id: u64) -> (w: LiveWindow)
        ensures
            w == (LiveWindow {
                id,
                position: Option::<Point>::None,
                size: spec_default_size(),
                focused: false,
            }),
    {
        LiveWindow { id, position: None, size: default_size(), focused: false }
    }

    /// The window after one event is folded in.
    pub open spec fn spec_applied(self, event: WindowEvent) -> LiveWindow {
        match event {
            WindowEvent::Moved(position) => LiveWindow { position: Some(position), ..self },
            WindowEvent::Resized(size) => LiveWindow { size, ..self },
            WindowEvent::Focused => LiveWindow { focused: true, ..self },
            WindowEvent::Unfocused => LiveWindow { focused: false, ..self },
            WindowEvent::Opened { position, size } => LiveWindow { position, size, ..self },
            WindowEvent::CloseRequested => self,
        }
    }

    /// Folds one event into the window; the result says whether the event
    /// asks the application to exit.
    pub fn apply(&mut self, event: WindowEvent) -> (exit: bool)
        ensures
            *final(self) == old(self).spec_applied(event),
            exit == (event is CloseRequested),
    {
        match event {
            WindowEvent::Moved(position) => {
                self.position = Some(position);
                false
            },
            WindowEvent::Resized(size) => {
                self.size = size;
                false
            },
            WindowEvent::Focused => {
                self.focused = true;
                false
            },
            WindowEvent::Unfocused => {
                self.focused = false;
                false
            },
            WindowEvent::Opened { position, size } => {
                self.position = position;
                self.size = size;
                false
            },
            WindowEvent::CloseRequested => true,
        }
    }
}

} // verus!
