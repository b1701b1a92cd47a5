//! State of an iteration over the key names of a message.

use vstd::prelude::*;

verus! {

/// Tells whether `codes_keys_iterator_next` moved to a further key: it returns 1 then.
pub fn iterator_moved(code: i32) -> (b: bool)
    ensures
        b == (code == 1),
{
    code == 1
}

/// Whether a keys iterator stands on a key whose name has not been handed out yet.
///
/// The ecCodes iterator is advanced once when it is created, and once after each name it
/// hands out; the cursor records whether the last advance found a key.
#[derive(Copy, Clone, Debug)]
pub struct KeysCursor {
    next_item_exists: bool,
}

impl KeysCursor {
    /// The iterator stands on a key whose name is still to be handed out.
    pub closed spec fn has_next(self) -> bool {
        self.next_item_exists
    }

    /// The cursor of a new iterator, given the code of its first advance.
    pub fn new(first_advance: i32) -> (c: KeysCursor)
        ensures
            c.has_next() == (first_advance == 1),
    {
        KeysCursor { next_item_exists: iterator_moved(first_advance) }
    }

    /// Tells whether a name is left: the next call reads the current name and advances,
    /// or the iteration is over.
    pub fn name_left(&self) -> (b: bool)
        ensures
            b == self.has_next(),
    {
        self.next_item_exists
    }

    /// Records the code of the advance that followed the name just handed out.
    ///
    /// An exhausted cursor stays exhausted, whatever the code.
    pub fn advanced(&mut self, code: i32)
        ensures
            final(self).has_next() == (old(self).has_next() && code == 1),
    {
        if self.next_item_exists {
            self.next_item_exists = iterator_moved(code);
        }
    }
}

} // verus!
