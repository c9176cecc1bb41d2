//! Bounded window of the most recently typed characters.

use vstd::prelude::*;

verus! {

/// Largest number of characters the buffer keeps.
pub const BUFFER_SIZE: usize = 100;

/// The character that the capture layer delivers for a backspace keystroke.
pub const BACKSPACE_CHAR: char = '\x08';

/// What one inserted character does to the window: append, then drop the
/// oldest character if the window would grow past `BUFFER_SIZE`.
pub open spec fn pushed_bounded(s: Seq<char>, c: char) -> Seq<char> {
    if s.len() < BUFFER_SIZE {
        s.push(c)
    } else {
        s.push(c).skip(1)
    }
}

/// What a backspace does to the window: remove the most recent character,
/// or nothing when the window is empty.
pub open spec fn popped_last(s: Seq<char>) -> Seq<char> {
    if s.len() == 0 {
        s
    } else {
        s.drop_last()
    }
}

/// Ordered, bounded record of the last characters the user typed.
pub struct KeystrokeBuffer {
    chars: Vec<char>,
}

impl KeystrokeBuffer {
    /// The characters currently in the window, oldest first.
    pub closed spec fn view(&self) -> Seq<char> {
        self.chars@
    }

    /// The window never holds more than `BUFFER_SIZE` characters.
    pub closed spec fn well_formed(&self) -> bool {
        self.chars@.len() <= BUFFER_SIZE
    }

    pub fn new() -> (r: KeystrokeBuffer)
        ensures
            r.well_formed(),
            r@ == Seq::<char>::empty(),
    {
        KeystrokeBuffer { chars: Vec::new() }
    }

    /// Append one typed character, trimming the window to the last
    /// `BUFFER_SIZE` characters.
    pub fn insert(&mut self, c: char)
        requires
            old(self).well_formed(),
        ensures
            final(self).well_formed(),
            final(self)@ == pushed_bounded(old(self)@, c),
    {
        self.chars.push(c);
        if self.chars.len() > BUFFER_SIZE {
            self.chars.remove(0);
            proof {
                assert(self@ =~= pushed_bounded(old(self)@, c));
            }
        }
    }

    /// Remove the most recently appended character; a no-op when empty.
    pub fn backspace(&mut self)
        requires
            old(self).well_formed(),
        ensures
            final(self).well_formed(),
            final(self)@ == popped_last(old(self)@),
    {
        if self.chars.len() > 0 {
            self.chars.pop();
            proof {
                assert(self@ =~= popped_last(old(self)@));
            }
        }
    }

    pub fn len(&self) -> (r: usize)
        ensures
            r == self@.len(),
    {
        self.chars.len()
    }

    /// Read-only access to the window for the matcher.
    pub fn contents(&self) -> (r: &Vec<char>)
        ensures
            r@ == self@,
    {
        &self.chars
    }
}

} // verus!
