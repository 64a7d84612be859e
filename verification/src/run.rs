//! The messages that the tasks of the program send each other.
use crate::config::Config;
use crate::output::Output;
use crate::surface::Surface;
use vstd::prelude::*;

verus! {

/// What the user did, as far as this crate reads it.
#[derive(Clone, Copy, Debug, PartialEq, Eq, Structural)]
pub enum Input {
    /// The mouse moved or was pressed in column `x` of row `y`, counted from one.
    Mouse { x: u16, y: u16 },
    /// Anything else.
    Other,
}

/// What a key binding asks for.
#[derive(Clone, Copy, Debug, PartialEq, Eq, Structural)]
pub enum KeybindingAction {
    ToggleTattoy,
    ScrollUp,
    ScrollDown,
    ScrollExit,
    ShaderPrev,
    ShaderNext,
}

/// A message to every task.
#[derive(Debug)]
pub enum Protocol {
    /// The shadow terminal reports new output.
    Output(Output),
    /// The user did something.
    Input(Input),
    /// The terminal of the user has a new size.
    Resize { width: u16, height: u16 },
    /// The settings have changed.
    Config(Config),
    /// A key binding was pressed.
    KeybindEvent(KeybindingAction),
    /// Something to tell the user.
    Notification(String),
    /// Whether the cursor may show.
    CursorVisibility(bool),
    /// The frame is to be painted again.
    Repaint,
    /// The program ends.
    End,
}

/// What the renderer is told of.
#[derive(Debug)]
pub enum FrameUpdate {
    /// A layer has a new surface. A surface without width or height says
    /// that the layer is gone.
    TattoySurface(Surface),
    /// The screen of the shadow terminal has changed.
    PTYSurface,
}

} // verus!
