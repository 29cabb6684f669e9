//! The canonical event and the rules that produce it.
use crate::escape_sequence::EscapeSequence;
use crate::raw::{control_modifier, modifier_bits, CONTROL_BITS, NO_MODIFIER_BITS};
use crossterm::event::{KeyCode, KeyEvent, KeyModifiers, MouseButton, MouseEvent};
use vstd::prelude::*;

verus! {

/// A user event, in the one shape that the application understands.
#[derive(Debug, PartialEq, Eq)]
pub enum Event {
    /// A key, with the modifiers held while it was hit.
    Key(KeyEvent),
    /// The primary button was hit at column `x`, row `y`, both counted from 0.
    Click(u16, u16, KeyModifiers),
    /// The secondary button was hit at column `x`, row `y`.
    RightClick(u16, u16, KeyModifiers),
    /// Two clicks close in time at column `x`, row `y`. Never made from a
    /// single notification: whoever watches the clock puts it together.
    DoubleClick(u16, u16),
    /// The terminal was resized. Holds the new width and height.
    Resize(u16, u16),
    /// The mouse wheel turned: -1 if up, 1 if down.
    Wheel(i32),
    /// An escape sequence that no lower layer intercepted.
    EscapeSequence(EscapeSequence),
}

/// Whether a key code is one of the two raw line ends, carriage return and
/// line feed, that terminals send for the enter key.
pub open spec fn is_line_end(code: KeyCode) -> bool {
    code == KeyCode::Char('\r') || code == KeyCode::Char('\n')
}

/// The key code under which a raw key code reaches the application: enter
/// for both line ends, the code itself otherwise.
pub open spec fn canonical_code(code: KeyCode) -> KeyCode {
    if is_line_end(code) {
        KeyCode::Enter
    } else {
        code
    }
}

/// What a mouse notification becomes. Only the release of the left or the
/// right button and the two scroll directions are events; a press, a drag
/// and the release of the middle button are dropped.
pub open spec fn classified_mouse(mouse: MouseEvent) -> Option<Event> {
    match mouse {
        MouseEvent::Up(MouseButton::Left, x, y, modifiers) => Some(Event::Click(x, y, modifiers)),
        MouseEvent::Up(MouseButton::Right, x, y, modifiers) => Some(
            Event::RightClick(x, y, modifiers),
        ),
        MouseEvent::Up(MouseButton::Middle, _, _, _) => None,
        MouseEvent::ScrollUp(_, _, _) => Some(Event::Wheel(-1i32)),
        MouseEvent::ScrollDown(_, _, _) => Some(Event::Wheel(1i32)),
        MouseEvent::Down(_, _, _, _) => None,
        MouseEvent::Drag(_, _, _, _) => None,
    }
}

impl Event {
    /// What a raw notification becomes: `None` where it is dropped.
    pub open spec fn classified(raw: crossterm::event::Event) -> Option<Event> {
        match raw {
            crossterm::event::Event::Key(key) => Some(
                Event::Key(KeyEvent { code: canonical_code(key.code), modifiers: key.modifiers }),
            ),
            crossterm::event::Event::Mouse(mouse) => classified_mouse(mouse),
            crossterm::event::Event::Resize(width, height) => Some(Event::Resize(width, height)),
        }
    }

    /// Whether the event is one that the application may meet after
    /// normalisation: a key is never a raw line end, and a wheel turns by
    /// exactly one step.
    pub open spec fn is_normal(self) -> bool {
        match self {
            Event::Key(key) => !is_line_end(key.code),
            Event::Wheel(direction) => direction == -1 || direction == 1,
            _ => true,
        }
    }

    /// Converts a crossterm event into an event of this library.
    ///
    /// Carriage return and line feed both become the enter key, which keeps
    /// key combinations simple. A double click never comes out of here: it
    /// takes two notifications and a clock.
    pub fn from_crossterm_event(crossterm_event: crossterm::event::Event) -> (out: Option<Event>)
        ensures
            out == Event::classified(crossterm_event),
    {
        match crossterm_event {
            crossterm::event::Event::Key(key) => {
                let code = match key.code {
                    KeyCode::Char(c) => {
                        if c == '\r' || c == '\n' {
                            KeyCode::Enter
                        } else {
                            key.code
                        }
                    },
                    _ => key.code,
                };
                Some(Event::Key(KeyEvent { code, modifiers: key.modifiers }))
            },
            crossterm::event::Event::Mouse(MouseEvent::Up(button, x, y, modifiers)) => {
                match button {
                    MouseButton::Left => Some(Event::Click(x, y, modifiers)),
                    MouseButton::Right => Some(Event::RightClick(x, y, modifiers)),
                    _ => None,
                }
            },
            crossterm::event::Event::Resize(w, h) => Some(Event::Resize(w, h)),
            crossterm::event::Event::Mouse(MouseEvent::ScrollUp(..)) => Some(Event::Wheel(-1)),
            crossterm::event::Event::Mouse(MouseEvent::ScrollDown(..)) => Some(Event::Wheel(1)),
            _ => None,
        }
    }

    /// A key event for `code` with the control modifier and no other.
    pub fn crtl_key(code: KeyCode) -> (out: Self)
        ensures
            out matches Event::Key(key) && key.code == code && modifier_bits(key.modifiers)
                == CONTROL_BITS,
    {
        Event::Key(KeyEvent { code, modifiers: control_modifier() })
    }

    /// A key event for `code` with no modifier.
    pub fn simple_key(code: KeyCode) -> (out: Self)
        ensures
            out matches Event::Key(key) && key.code == code && modifier_bits(key.modifiers)
                == NO_MODIFIER_BITS,
    {
        Event::Key(KeyEvent { code, modifiers: KeyModifiers::empty() })
    }

    /// In case the event is mouse related, gives the position.
    pub fn mouse_pos(self) -> (out: Option<(u16, u16)>)
        ensures
            self matches Event::Click(x, y, _) ==> out == Some((x, y)),
            self matches Event::RightClick(x, y, _) ==> out == Some((x, y)),
            self matches Event::DoubleClick(x, y) ==> out == Some((x, y)),
            self is Key || self is Resize || self is Wheel || self is EscapeSequence ==> out is None,
    {
        match self {
            Event::Click(x, y, _) => Some((x, y)),
            Event::RightClick(x, y, _) => Some((x, y)),
            Event::DoubleClick(x, y) => Some((x, y)),
            _ => None,
        }
    }
}

impl Clone for Event {
    /// The same event. An escape sequence is copied key by key.
    fn clone(&self) -> (out: Self)
        ensures
            match (*self, out) {
                (Event::EscapeSequence(a), Event::EscapeSequence(b)) => a.keys@ == b.keys@,
                _ => out == *self,
            },
    {
        match self {
            Event::Key(key) => Event::Key(*key),
            Event::Click(x, y, modifiers) => Event::Click(*x, *y, *modifiers),
            Event::RightClick(x, y, modifiers) => Event::RightClick(*x, *y, *modifiers),
            Event::DoubleClick(x, y) => Event::DoubleClick(*x, *y),
            Event::Resize(w, h) => Event::Resize(*w, *h),
            Event::Wheel(direction) => Event::Wheel(*direction),
            Event::EscapeSequence(sequence) => Event::EscapeSequence(sequence.clone()),
        }
    }
}

} // verus!
