//! What holds of the classification as a whole, proved from its definition.
use crate::event::{canonical_code, is_line_end, Event};
use crossterm::event::{KeyCode, KeyEvent, KeyModifiers, MouseButton, MouseEvent};
use vstd::prelude::*;

verus! {

/// A key notification whose code is carriage return or line feed becomes
/// the enter key, with the modifiers it came with.
pub proof fn line_ends_become_enter(code: KeyCode, modifiers: KeyModifiers)
    requires
        code == KeyCode::Char('\r') || code == KeyCode::Char('\n'),
    ensures
        Event::classified(crossterm::event::Event::Key((KeyEvent { code, modifiers }))) == Some(
            Event::Key((KeyEvent { code: KeyCode::Enter, modifiers })),
        ),
{
}

/// Every other key notification becomes a key event that holds the very
/// key event it came with.
pub proof fn other_keys_pass_unchanged(key: KeyEvent)
    requires
        key.code != KeyCode::Char('\r'),
        key.code != KeyCode::Char('\n'),
    ensures
        Event::classified(crossterm::event::Event::Key(key)) == Some(Event::Key(key)),
{
}

/// No key is ever dropped, and the modifiers of a key are never touched.
pub proof fn keys_are_never_dropped(key: KeyEvent)
    ensures
        Event::classified(crossterm::event::Event::Key(key)) matches Some(Event::Key(out))
            && out.modifiers == key.modifiers && out.code == canonical_code(key.code),
{
}

/// Normalising a key code twice gives what normalising it once gives, and
/// what it gives is never a raw line end.
pub proof fn canonical_code_is_settled(code: KeyCode)
    ensures
        canonical_code(canonical_code(code)) == canonical_code(code),
        !is_line_end(canonical_code(code)),
{
}

/// The release of the left button is a click and the release of the right
/// button a right click, at the cell and with the modifiers of the
/// notification; the release of the middle button is dropped.
pub proof fn releases_become_clicks(x: u16, y: u16, modifiers: KeyModifiers)
    ensures
        Event::classified(
            crossterm::event::Event::Mouse(MouseEvent::Up(MouseButton::Left, x, y, modifiers)),
        ) == Some(Event::Click(x, y, modifiers)),
        Event::classified(
            crossterm::event::Event::Mouse(MouseEvent::Up(MouseButton::Right, x, y, modifiers)),
        ) == Some(Event::RightClick(x, y, modifiers)),
        Event::classified(
            crossterm::event::Event::Mouse(MouseEvent::Up(MouseButton::Middle, x, y, modifiers)),
        ) is None,
{
}

/// A resize is always forwarded with the dimensions it reports, whatever
/// they are: no size is special, and nothing is remembered between calls.
pub proof fn resizes_are_forwarded(width: u16, height: u16)
    ensures
        Event::classified(crossterm::event::Event::Resize(width, height)) == Some(
            Event::Resize(width, height),
        ),
{
}

/// The wheel turns by one step: -1 for a scroll up and 1 for a scroll
/// down, wherever the pointer is and whatever modifiers are held.
pub proof fn wheel_turns_by_one(x: u16, y: u16, modifiers: KeyModifiers)
    ensures
        Event::classified(crossterm::event::Event::Mouse(MouseEvent::ScrollUp(x, y, modifiers)))
            == Some(Event::Wheel(-1i32)),
        Event::classified(crossterm::event::Event::Mouse(MouseEvent::ScrollDown(x, y, modifiers)))
            == Some(Event::Wheel(1i32)),
{
}

/// The notifications that are dropped are exactly the press of a button,
/// a drag, and the release of the middle button. Every other notification
/// becomes an event.
pub proof fn dropped_exactly(raw: crossterm::event::Event)
    ensures
        Event::classified(raw) is None <==> {
            &&& raw matches crossterm::event::Event::Mouse(mouse)
            &&& {
                ||| mouse is Down
                ||| mouse is Drag
                ||| mouse matches MouseEvent::Up(MouseButton::Middle, _, _, _)
            }
        },
{
}

/// Whatever comes out is normal, and is neither a double click nor an
/// escape sequence: those two are only ever made elsewhere.
pub proof fn classified_is_normal(raw: crossterm::event::Event)
    ensures
        Event::classified(raw) matches Some(event) ==> event.is_normal() && !(event is DoubleClick)
            && !(event is EscapeSequence),
{
}

/// A click is what the release of the left button at its cell becomes, and
/// nothing else becomes one; likewise a right click and the right button.
pub proof fn clicks_come_from_releases(
    raw: crossterm::event::Event,
    x: u16,
    y: u16,
    modifiers: KeyModifiers,
)
    ensures
        Event::classified(raw) == Some(Event::Click(x, y, modifiers)) <==> raw
            == crossterm::event::Event::Mouse(MouseEvent::Up(MouseButton::Left, x, y, modifiers)),
        Event::classified(raw) == Some(Event::RightClick(x, y, modifiers)) <==> raw
            == crossterm::event::Event::Mouse(MouseEvent::Up(MouseButton::Right, x, y, modifiers)),
{
}

} // verus!
