//! The stimuli the event loop waits on: items from the terminal's input
//! stream, and the periodic timer tick that bounds redraw latency.

use vstd::prelude::*;

verus! {

/// The keys the loop tells apart: the escape key, a character key, and
/// everything else (arrows, function keys, ...), which it ignores.
#[derive(Clone, Copy, Debug, PartialEq, Eq, Structural)]
pub enum KeyCode {
    Esc,
    Char(char),
    Other,
}

/// The modifier keys held while a key event was produced.
#[derive(Clone, Copy, Debug, PartialEq, Eq, Structural)]
pub struct Modifiers {
    pub shift: bool,
    pub control: bool,
    pub alt: bool,
}

impl Modifiers {
    /// No modifier key held.
    pub open spec fn none_held() -> Modifiers {
        Modifiers { shift: false, control: false, alt: false }
    }

    /// Exactly the control key held.
    pub open spec fn control_held() -> Modifiers {
        Modifiers { shift: false, control: true, alt: false }
    }
}

/// Whether a key event reports the key going down, coming up, or repeating.
/// Only presses drive the interface; the other kinds exist on platforms
/// that report them and are ignored.
#[derive(Clone, Copy, Debug, PartialEq, Eq, Structural)]
pub enum KeyEventKind {
    Press,
    Release,
    Repeat,
}

/// One key event: which key, which modifiers, and of which kind.
#[derive(Clone, Copy, Debug, PartialEq, Eq, Structural)]
pub struct KeyInput {
    pub code: KeyCode,
    pub modifiers: Modifiers,
    pub kind: KeyEventKind,
}

/// A tagged event from the terminal's input stream. Pointer and resize
/// events are accepted but currently unhandled.
#[derive(Clone, Copy, Debug, PartialEq, Eq, Structural)]
pub enum InputEvent {
    Key(KeyInput),
    Mouse,
    Resize(u16, u16),
    Other,
}

/// What one read of the input stream yielded: an event, a transient read
/// error, or nothing more (the stream is exhausted).
#[derive(Clone, Copy, Debug, PartialEq, Eq, Structural)]
pub enum StreamRead {
    Event(InputEvent),
    ReadError,
    Exhausted,
}

/// What one stimulus wait returned: an item from the input stream, or the
/// fixed timer elapsed first with no input having arrived.
#[derive(Clone, Copy, Debug, PartialEq, Eq, Structural)]
pub enum Stimulus {
    Input(StreamRead),
    Tick,
}

} // verus!
