use crate::content::{Content, GROWTH_INCREMENT};
use crate::gap_buffer::GapBuffer;
use vstd::prelude::*;

verus! {

/// One line of text: a gap buffer of characters whose cursor is the column
/// at which the next character goes in.
#[derive(Debug)]
pub struct LineBuffer {
    chars: GapBuffer<char>,
}

impl View for LineBuffer {
    type V = Content<char>;

    closed spec fn view(&self) -> Content<char> {
        self.chars@
    }
}

impl Default for LineBuffer {
    /// A line without characters and without a store: its first insertion
    /// allocates one.
    fn default() -> (line: Self)
        ensures
            line@ == Content::<char>::empty(0),
    {
        LineBuffer { chars: GapBuffer::with_capacity(0) }
    }
}

impl LineBuffer {
    /// Returns an empty line with room for `capacity` characters.
    pub fn with_capacity(capacity: usize) -> (line: Self)
        ensures
            line@ == Content::<char>::empty(capacity as nat),
    {
        LineBuffer { chars: GapBuffer::with_capacity(capacity) }
    }

    /// Returns an empty line with room for `GROWTH_INCREMENT` characters.
    pub fn new() -> (line: Self)
        ensures
            line@ == Content::<char>::empty(GROWTH_INCREMENT as nat),
    {
        LineBuffer { chars: GapBuffer::new() }
    }

    /// Whether the line holds no character.
    pub fn is_empty(&self) -> (empty: bool)
        ensures
            empty == (self@.items.len() == 0),
    {
        self.chars.count() == 0
    }

    /// Returns the character in column `idx`, if the line is that long.
    pub fn get_char_at(&self, idx: usize) -> (found: Option<&char>)
        ensures
            found == if idx < self@.items.len() {
                Some(&self@.items[idx as int])
            } else {
                None
            },
    {
        self.chars.get(idx)
    }

    /// Moves the cursor to column `seek_to`, or to the last character when
    /// the line is shorter.
    pub fn seek(&mut self, seek_to: usize)
        ensures
            final(self)@ == old(self)@.seek(seek_to as nat),
            old(self)@.valid(),
            final(self)@.valid(),
    {
        self.chars.seek(seek_to);
    }

    /// Returns the column of the character just before the cursor, if the
    /// cursor is not at the start of the line.
    pub fn get_current_index(&self) -> (index: Option<usize>)
        ensures
            match index {
                Some(column) => self@.current() == Some(column as nat) && column < usize::MAX,
                None => self@.current() is None,
            },
            self@.valid(),
    {
        let caret = self.chars.get_current_index();
        if caret > 0 {
            Some(caret - 1)
        } else {
            None
        }
    }

    /// Returns the cursor: the column at which the next character goes in.
    pub fn get_caret(&self) -> (caret: usize)
        ensures
            caret == self@.cursor,
            self@.valid(),
    {
        self.chars.get_current_index()
    }

    /// Puts `ch` at the cursor and steps the cursor past it.
    pub fn insert(&mut self, ch: char)
        requires
            old(self)@.has_room(),
        ensures
            final(self)@ == old(self)@.insert(ch),
            old(self)@.valid(),
            final(self)@.valid(),
    {
        self.chars.insert(ch);
    }

    /// Removes the character just before the cursor, as a backspace does;
    /// at the start of the line nothing changes.
    pub fn delete(&mut self)
        ensures
            final(self)@ == old(self)@.delete(),
            old(self)@.cursor == 0 ==> *final(self) == *old(self),
            old(self)@.valid(),
            final(self)@.valid(),
    {
        self.chars.delete();
    }

    /// Returns a line with the same cursor and the same room that holds, in
    /// place of each character, what `f` makes of it.
    pub fn apply_to_all<F: Fn(&char) -> char>(&self, f: F) -> (mapped: LineBuffer)
        requires
            forall|i: int|
                0 <= i < self@.items.len() ==> call_requires(f, (&#[trigger] self@.items[i],)),
        ensures
            mapped@.items.len() == self@.items.len(),
            forall|i: int|
                0 <= i < self@.items.len() ==> call_ensures(
                    f,
                    (&self@.items[i],),
                    #[trigger] mapped@.items[i],
                ),
            mapped@.cursor == self@.cursor,
            mapped@.capacity == self@.capacity,
    {
        assert(self@.items == self.chars@.items);
        LineBuffer { chars: self.chars.map(f) }
    }

    /// Calls `f` on every character, from the first column to the last.
    pub fn for_each<F: FnMut(&char)>(&self, f: F)
        requires
            forall|i: int|
                0 <= i < self@.items.len() ==> call_requires(f, (&#[trigger] self@.items[i],)),
        ensures
            forall|i: int|
                0 <= i < self@.items.len() ==> call_ensures(f, (&#[trigger] self@.items[i],), ()),
    {
        assert(self@.items == self.chars@.items);
        self.chars.for_each(f);
    }

    /// Returns the number of characters.
    pub fn count(&self) -> (n: usize)
        ensures
            n == self@.items.len(),
            self@.valid(),
    {
        self.chars.count()
    }
}

} // verus!
