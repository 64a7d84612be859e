//! What the shadow terminal reports: changes to its surfaces, or whole surfaces.
use crate::cell::CellAttributes;
use crate::grid::Cursor;
use crate::grid::CursorVisibility;
use crate::grid::Grid;
use vstd::prelude::*;

verus! {

/// Which of the two surfaces of the shadow terminal is meant.
#[derive(Clone, Copy, Debug, PartialEq, Eq, Structural)]
pub enum SurfaceKind {
    /// Everything that the terminal still remembers, the screen included.
    Scrollback,
    /// What the terminal shows.
    Screen,
}

/// Which screen of the terminal is in use.
#[derive(Clone, Copy, Debug, PartialEq, Eq, Structural)]
pub enum ScreenMode {
    Main,
    /// The screen of full-screen programs, which has no scrollback.
    Alternate,
}

/// One change to a surface. Of a change this crate reads only the
/// attributes that it sets for what follows.
#[derive(Clone, Copy, Debug, PartialEq, Eq, Structural)]
pub enum Change {
    /// Sets every attribute at once.
    AllAttributes(CellAttributes),
    /// Any change that sets no attributes.
    Other,
}

/// Changes to the scrollback.
#[derive(Debug)]
pub struct ScrollbackDiff {
    pub changes: Vec<Change>,
    /// Width and height of the screen.
    pub size: (usize, usize),
    /// How far the user has scrolled back; zero at the bottom.
    pub position: usize,
    /// How many rows the scrollback has.
    pub height: usize,
}

/// Changes to the screen.
#[derive(Debug)]
pub struct ScreenDiff {
    pub changes: Vec<Change>,
    /// Width and height of the screen.
    pub size: (usize, usize),
}

/// Changes to one of the surfaces.
#[derive(Debug)]
pub enum SurfaceDiff {
    Scrollback(ScrollbackDiff),
    Screen(ScreenDiff),
}

/// The whole scrollback.
#[derive(Debug)]
pub struct CompleteScrollback {
    pub surface: Grid,
    /// How far the user has scrolled back; zero at the bottom.
    pub position: usize,
}

/// The whole screen.
#[derive(Debug)]
pub struct CompleteScreen {
    pub surface: Grid,
    pub mode: ScreenMode,
}

/// One of the surfaces as a whole.
#[derive(Debug)]
pub enum CompleteSurface {
    Scrollback(CompleteScrollback),
    Screen(CompleteScreen),
}

/// One report of the shadow terminal.
#[derive(Debug)]
pub enum Output {
    Diff(SurfaceDiff),
    Complete(CompleteSurface),
}

impl Output {
    /// Every grid in the report is a rectangle.
    pub open spec fn wf(&self) -> bool {
        match self {
            Output::Complete(CompleteSurface::Scrollback(scrollback)) => scrollback.surface.wf(),
            Output::Complete(CompleteSurface::Screen(screen)) => screen.surface.wf(),
            Output::Diff(_) => true,
        }
    }
}

impl CompleteScrollback {
    /// An empty scrollback, not scrolled, with a visible cursor in its top
    /// left corner.
    pub fn default() -> (scrollback: CompleteScrollback)
        ensures
            scrollback.surface.wf(),
            scrollback.surface.width == 0,
            scrollback.surface.height == 0,
            scrollback.surface.cursor == (Cursor {
                x: 0,
                y: 0,
                shape: None,
                visibility: CursorVisibility::Visible,
            }),
            scrollback.position == 0,
    {
        CompleteScrollback { surface: Grid::new(0, 0), position: 0 }
    }
}

impl CompleteScreen {
    /// An empty main screen, with a visible cursor in its top left corner.
    pub fn default() -> (screen: CompleteScreen)
        ensures
            screen.surface.wf(),
            screen.surface.width == 0,
            screen.surface.height == 0,
            screen.surface.cursor == (Cursor {
                x: 0,
                y: 0,
                shape: None,
                visibility: CursorVisibility::Visible,
            }),
            screen.mode == ScreenMode::Main,
    {
        CompleteScreen { surface: Grid::new(0, 0), mode: ScreenMode::Main }
    }
}

} // verus!
