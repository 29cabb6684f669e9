//! What Verus is told about crossterm's event types.
//!
//! The enums and the key event struct have public variants and fields only,
//! so Verus reads their definitions from crossterm itself and nothing about
//! them is taken on trust. The modifier set keeps its bits private: it is
//! carried through as an opaque value, and the two facts that the library
//! needs about it are believed, not proved.
use crossterm::event::Event as Notification;
use crossterm::event::KeyModifiers;
use vstd::prelude::*;

verus! {

/// crossterm's `Event`, read as crossterm defines it: a key, a mouse event
/// or a resize.
#[verifier::external_type_specification]
pub struct ExNotification(Notification);

/// crossterm's `MouseEvent`, read as crossterm defines it.
#[verifier::external_type_specification]
pub struct ExMouseEvent(crossterm::event::MouseEvent);

/// crossterm's `MouseButton`, read as crossterm defines it: left, right or
/// middle.
#[verifier::external_type_specification]
pub struct ExMouseButton(crossterm::event::MouseButton);

/// crossterm's `KeyEvent`, read as crossterm defines it: a key code and a
/// modifier set.
#[verifier::external_type_specification]
pub struct ExKeyEvent(crossterm::event::KeyEvent);

/// crossterm's `KeyCode`, read as crossterm defines it.
#[verifier::external_type_specification]
pub struct ExKeyCode(crossterm::event::KeyCode);

/// crossterm's `KeyModifiers`, a set of flags over private bits. Verus sees
/// nothing inside a value of it; two such values are equal in a contract
/// when they are the same value.
#[verifier::external_type_specification]
#[verifier::external_body]
pub struct ExKeyModifiers(crossterm::event::KeyModifiers);

/// The bits that a modifier set holds, one bit per flag: what
/// `KeyModifiers::bits` returns.
pub uninterp spec fn modifier_bits(modifiers: KeyModifiers) -> u8;

/// The bits of a modifier set that holds no flag.
pub const NO_MODIFIER_BITS: u8 = 0b0000_0000;

/// The bits of a modifier set that holds the control flag alone.
pub const CONTROL_BITS: u8 = 0b0000_0010;

/// `KeyModifiers::empty`. Believed, not proved: the set it returns holds no
/// flag, that is, all its bits are zero.
pub assume_specification[ KeyModifiers::empty ]() -> (modifiers: KeyModifiers)
    ensures
        modifier_bits(modifiers) == NO_MODIFIER_BITS,
;

/// The constant `KeyModifiers::CONTROL`. Believed, not proved: its bits are
/// `0b0000_0010`, the value with which crossterm declares the flag.
#[verifier::external_body]
pub(crate) fn control_modifier() -> (modifiers: KeyModifiers)
    ensures
        modifier_bits(modifiers) == CONTROL_BITS,
{
    KeyModifiers::CONTROL
}

} // verus!
