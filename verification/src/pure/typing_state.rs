//! The text that has been sent to the keyboard so far.

use vstd::prelude::*;

use crate::pure::edit_distance::{edit_ops, spec_edit_ops, KeyOp, Screen};

verus! {

/// What is on screen: exactly the text that the operations handed out so far
/// have produced. It changes only through `transition` and `clear`.
pub struct TypingState {
    typed: String,
}

impl View for TypingState {
    type V = Seq<char>;

    closed spec fn view(&self) -> Seq<char> {
        self.typed@
    }
}

impl TypingState {
    /// The state of an empty screen.
    pub fn new() -> (state: Self)
        ensures
            state@ == Seq::<char>::empty(),
    {
        Self { typed: String::new() }
    }

    /// The text on screen.
    pub fn typed(&self) -> (text: &str)
        ensures
            text@ == self@,
    {
        self.typed.as_str()
    }

    /// Takes `new_text` as the text to show and returns the operations that
    /// turn the text on screen into it: applied to a screen that shows the
    /// old text, they leave `new_text` on it.
    pub fn transition(&mut self, new_text: &str) -> (ops: Vec<KeyOp>)
        ensures
            ops@ == spec_edit_ops(old(self)@, new_text@),
            final(self)@ == new_text@,
            Screen::at_end(old(self)@).apply_all(ops@) == Screen::at_end(new_text@),
    {
        let ops = edit_ops(self.typed.as_str(), new_text);
        self.typed = new_text.to_owned();
        ops
    }

    /// Forgets the text on screen: the next hypothesis is typed from the start.
    pub fn clear(&mut self)
        ensures
            final(self)@ == Seq::<char>::empty(),
    {
        self.typed = String::new();
    }
}

impl Default for TypingState {
    fn default() -> (state: Self)
        ensures
            state@ == Seq::<char>::empty(),
    {
        Self::new()
    }
}

} // verus!
