//! Escape sequences that a decoder below this layer did not consume.
use crossterm::event::KeyEvent;
use vstd::prelude::*;

verus! {

/// An escape sequence, already decoded into the key events it was read as.
///
/// This layer never looks inside: it only carries the value in
/// [`Event::EscapeSequence`](crate::Event::EscapeSequence).
#[derive(Debug, PartialEq, Eq)]
pub struct EscapeSequence {
    pub keys: Vec<KeyEvent>,
}

impl Clone for EscapeSequence {
    /// A sequence of the same key events, in the same order.
    fn clone(&self) -> (out: Self)
        ensures
            out.keys@ == self.keys@,
    {
        let mut keys: Vec<KeyEvent> = Vec::new();
        let mut i: usize = 0;
        while i < self.keys.len()
            invariant
                i <= self.keys.len(),
                keys@ == self.keys@.subrange(0, i as int),
            decreases self.keys.len() - i,
        {
            keys.push(self.keys[i]);
            i += 1;
        }
        EscapeSequence { keys }
    }
}

} // verus!
