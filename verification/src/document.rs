use crate::content::{Content, GROWTH_INCREMENT};
use vstd::prelude::*;

verus! {

/// The byte that is written for `ch`: its code point, cut down to eight bits.
pub open spec fn byte_of(ch: char) -> u8 {
    ch as u8
}

/// The character that is read for the byte `b`: the one with that code point.
pub open spec fn char_of(b: u8) -> char {
    b as char
}

/// The bytes of one line.
pub open spec fn line_bytes(line: Seq<char>) -> Seq<u8> {
    line.map_values(|ch: char| byte_of(ch))
}

/// The bytes of `lines` with one line feed between each two of them, and none
/// after the last.
pub open spec fn joined(lines: Seq<Seq<char>>) -> Seq<u8>
    decreases lines.len(),
{
    if lines.len() == 0 {
        Seq::empty()
    } else if lines.len() == 1 {
        line_bytes(lines[0])
    } else {
        joined(lines.drop_last()) + seq![10u8] + line_bytes(lines.last())
    }
}

/// The stream `bytes` without its carriage returns.
pub open spec fn without_returns(bytes: Seq<u8>) -> Seq<u8> {
    bytes.filter(|b: u8| b != 13u8)
}

/// The characters that loading feeds to a document for the stream `bytes`:
/// one for each byte, and a line feed behind a last line that has none.
pub open spec fn typed_stream(bytes: Seq<u8>) -> Seq<char> {
    let chars = bytes.map_values(|b: u8| char_of(b));
    if bytes.len() > 0 && bytes.last() != 10u8 {
        chars.push('\n')
    } else {
        chars
    }
}

/// What a text buffer is to its users: a gap buffer of lines, each a gap
/// buffer of characters, with the name of the file it was last saved to and
/// whether it was saved since its last edit.
#[verifier::ext_equal]
pub struct Document {
    pub lines: Content<Content<char>>,
    pub file_name: Option<Seq<char>>,
    pub saved: bool,
}

impl Document {
    /// The lines and each of them are valid.
    pub open spec fn valid(self) -> bool {
        &&& self.lines.valid()
        &&& forall|row: int| 0 <= row < self.lines.items.len() ==> (#[trigger] self.lines.items[row]).valid()
    }

    /// No lines, no file name, not saved, room for `capacity` lines.
    pub open spec fn empty(capacity: nat) -> Self {
        Document { lines: Content::empty(capacity), file_name: None, saved: false }
    }

    /// The characters of each line.
    pub open spec fn text(self) -> Seq<Seq<char>> {
        self.lines.items.map_values(|line: Content<char>| line.items)
    }

    /// The line just before the cursor, if the cursor is not at 0.
    pub open spec fn current_line(self) -> Option<Content<char>> {
        match self.lines.current() {
            Some(row) => Some(self.lines.items[row as int]),
            None => None,
        }
    }

    /// Row and column of the character just before the two cursors, if there
    /// is a current line and its cursor is not at its start.
    pub open spec fn cursor_index(self) -> Option<(nat, nat)> {
        match self.lines.current() {
            Some(row) => match self.lines.items[row as int].current() {
                Some(column) => Some((row, column)),
                None => None,
            },
            None => None,
        }
    }

    /// The line in `row` is replaced by `line`.
    pub open spec fn with_line(self, row: int, line: Content<char>) -> Self {
        Document { lines: self.lines.replace(row, line), ..self }
    }

    /// The document is marked as edited since it was saved.
    pub open spec fn touched(self) -> Self {
        Document { saved: false, ..self }
    }

    /// The cursor moves to `row` as a gap buffer's does; the lines stay.
    pub open spec fn seek(self, row: nat) -> Self {
        Document { lines: self.lines.seek(row), ..self }
    }

    /// The cursor moves to `row`, and then the cursor of the line that is
    /// current there, if any, to `col`.
    pub open spec fn move_cursor(self, row: nat, col: nat) -> Self {
        let at_row = self.seek(row);
        match at_row.lines.current() {
            Some(current) => at_row.with_line(
                current as int,
                at_row.lines.items[current as int].seek(col),
            ),
            None => at_row,
        }
    }

    /// An empty line with room for `GROWTH_INCREMENT` characters goes in at
    /// the cursor and becomes the current line.
    pub open spec fn new_line(self) -> Self {
        Document {
            lines: self.lines.insert(Content::empty(GROWTH_INCREMENT as nat)),
            ..self
        }.touched()
    }

    /// The current line leaves; without one nothing changes.
    pub open spec fn delete(self) -> Self {
        if self.lines.cursor > 0 {
            Document { lines: self.lines.delete(), ..self }.touched()
        } else {
            self
        }
    }

    /// Whether the store that `put_char(ch)` may have to grow can be
    /// addressed: the lines' for a line feed, the current line's for a
    /// character that is kept.
    pub open spec fn can_put(self, ch: char) -> bool {
        if ch == '\r' {
            true
        } else if ch == '\n' {
            self.lines.has_room()
        } else {
            match self.lines.current() {
                Some(row) => self.lines.items[row as int].has_room(),
                None => true,
            }
        }
    }

    /// A carriage return is dropped and leaves the document as it is. A line
    /// feed starts a new line. Any other character goes into the current line
    /// at its cursor, and is dropped where there is no current line. But for
    /// the carriage return, the document counts as edited.
    pub open spec fn put_char(self, ch: char) -> Self {
        if ch == '\r' {
            self
        } else if ch == '\n' {
            self.new_line()
        } else {
            match self.lines.current() {
                Some(row) => self.with_line(
                    row as int,
                    self.lines.items[row as int].insert(ch),
                ).touched(),
                None => self.touched(),
            }
        }
    }

    /// The cursor moves to `row` and the line before it leaves.
    pub open spec fn delete_line(self, row: nat) -> Self {
        self.seek(row).delete().touched()
    }

    /// The two cursors move to `row` and `col`, and the character before the
    /// column cursor leaves.
    pub open spec fn delete_char(self, row: nat, col: nat) -> Self {
        let moved = self.move_cursor(row, col);
        match moved.lines.current() {
            Some(current) => moved.with_line(
                current as int,
                moved.lines.items[current as int].delete(),
            ).touched(),
            None => moved.touched(),
        }
    }

    /// What is written when the document is saved.
    pub open spec fn bytes(self) -> Seq<u8> {
        joined(self.text())
    }

    /// The document is marked as saved to `path`.
    pub open spec fn saved_as(self, path: Seq<char>) -> Self {
        Document { file_name: Some(path), saved: true, ..self }
    }

    /// The characters of `chars` are put one after the other.
    pub open spec fn typed(self, chars: Seq<char>) -> Self
        decreases chars.len(),
    {
        if chars.len() == 0 {
            self
        } else {
            self.put_char(chars[0]).typed(chars.skip(1))
        }
    }

    /// The document that loading makes of the stream `bytes`: a first empty
    /// line, into which the stream's characters are typed.
    pub open spec fn loaded(bytes: Seq<u8>) -> Self {
        Document::empty(GROWTH_INCREMENT as nat).new_line().typed(typed_stream(bytes))
    }

    /// Replacing a line by a valid one keeps a valid document valid.
    pub proof fn with_line_keeps_valid(self, row: int, line: Content<char>)
        requires
            self.valid(),
            0 <= row < self.lines.items.len(),
            line.valid(),
        ensures
            self.with_line(row, line).valid(),
    {
        let next = self.with_line(row, line);
        assert forall|r: int| 0 <= r < next.lines.items.len() implies (
        #[trigger] next.lines.items[r]).valid() by {
            if r != row {
                assert(next.lines.items[r] == self.lines.items[r]);
            }
        }
    }

    /// A new line keeps a valid document valid.
    pub proof fn new_line_keeps_valid(self)
        requires
            self.valid(),
        ensures
            self.new_line().valid(),
    {
        let next = self.new_line();
        let at = self.lines.cursor as int;
        assert forall|r: int| 0 <= r < next.lines.items.len() implies (
        #[trigger] next.lines.items[r]).valid() by {
            if r < at {
                assert(next.lines.items[r] == self.lines.items[r]);
            } else if r > at {
                assert(next.lines.items[r] == self.lines.items[r - 1]);
            }
        }
    }

    /// A typed character keeps a valid document valid.
    pub proof fn put_char_keeps_valid(self, ch: char)
        requires
            self.valid(),
        ensures
            self.put_char(ch).valid(),
    {
        if ch == '\r' {
        } else if ch == '\n' {
            self.new_line_keeps_valid();
        } else if self.lines.cursor > 0 {
            let row = self.lines.cursor - 1;
            self.lines.items[row].insert_keeps_valid(ch);
            self.with_line_keeps_valid(row, self.lines.items[row].insert(ch));
        }
    }

    /// Whether the document stands as typing leaves it: it is valid, its
    /// cursor is behind its last line, and that line's cursor is at its end.
    pub open spec fn at_end(self) -> bool {
        &&& self.valid()
        &&& self.lines.items.len() >= 1
        &&& self.lines.cursor == self.lines.items.len()
        &&& self.lines.items.last().cursor == self.lines.items.last().items.len()
    }

    /// Typing one more character after `chars` is putting it after they were
    /// typed.
    pub proof fn typed_push(self, chars: Seq<char>, ch: char)
        ensures
            self.typed(chars.push(ch)) == self.typed(chars).put_char(ch),
        decreases chars.len(),
    {
        let all = chars.push(ch);
        if chars.len() == 0 {
            assert(all.skip(1) =~= Seq::<char>::empty());
            assert(self.typed(all) == self.put_char(ch).typed(all.skip(1)));
        } else {
            assert(all.skip(1) =~= chars.skip(1).push(ch));
            self.put_char(chars[0]).typed_push(chars.skip(1), ch);
        }
    }

    /// A character typed at the end of a document adds its byte to the end
    /// of what is saved, unless it is a carriage return, which adds nothing;
    /// and the document again stands at its end.
    pub proof fn put_char_at_end(self, ch: char)
        requires
            self.at_end(),
        ensures
            self.put_char(ch).at_end(),
            self.put_char(ch).bytes() == self.bytes() + if ch == '\r' {
                Seq::<u8>::empty()
            } else {
                seq![byte_of(ch)]
            },
    {
        let next = self.put_char(ch);
        self.put_char_keeps_valid(ch);
        let text = self.text();
        if ch == '\r' {
            assert(self.bytes() + Seq::<u8>::empty() =~= self.bytes());
        } else if ch == '\n' {
            assert(next.text() =~= text.push(Seq::<char>::empty()));
            assert(next.text().drop_last() =~= text);
            assert(line_bytes(Seq::<char>::empty()) =~= Seq::<u8>::empty());
            assert(next.bytes() =~= self.bytes() + seq![10u8]);
        } else {
            let row = self.lines.items.len() - 1;
            let line = self.lines.items[row];
            assert(line.valid());
            assert(line.insert(ch).items =~= line.items.push(ch));
            assert(next.text() =~= text.update(row, text[row].push(ch)));
            assert(line_bytes(text[row].push(ch)) =~= line_bytes(text[row]).push(byte_of(ch)));
            if text.len() > 1 {
                assert(next.text().drop_last() =~= text.drop_last());
            }
            assert(next.bytes() =~= self.bytes() + seq![byte_of(ch)]);
        }
    }

    /// Loading the stream `bytes` into a document that stands at its end
    /// adds the stream, without its carriage returns, to what is saved.
    pub proof fn typed_at_end(self, bytes: Seq<u8>)
        requires
            self.at_end(),
        ensures
            self.typed(bytes.map_values(|b: u8| char_of(b))).at_end(),
            self.typed(bytes.map_values(|b: u8| char_of(b))).bytes() == self.bytes()
                + without_returns(bytes),
        decreases bytes.len(),
    {
        let chars = bytes.map_values(|b: u8| char_of(b));
        if bytes.len() == 0 {
            reveal(Seq::filter);
            assert(self.bytes() + without_returns(bytes) =~= self.bytes());
        } else {
            let front = bytes.drop_last();
            let front_chars = front.map_values(|b: u8| char_of(b));
            let last = bytes.last();
            assert(chars =~= front_chars.push(char_of(last)));
            assert(bytes =~= front.push(last));
            self.typed_at_end(front);
            self.typed_push(front_chars, char_of(last));
            self.typed(front_chars).put_char_at_end(char_of(last));
            front.lemma_filter_push(last, |b: u8| b != 13u8);
            assert(char_of(last) == '\r' <==> last == 13u8);
            assert(byte_of(char_of(last)) == last);
            assert(self.typed(chars).bytes() =~= self.bytes() + without_returns(bytes));
        }
    }

    /// Saving what was loaded gives back the stream without its carriage
    /// returns, and with a line feed behind a last line that had none.
    pub proof fn save_after_load(bytes: Seq<u8>)
        ensures
            Self::loaded(bytes).bytes() == without_returns(bytes) + if bytes.len() > 0
                && bytes.last() != 10u8 {
                seq![10u8]
            } else {
                Seq::<u8>::empty()
            },
    {
        let start = Self::empty(GROWTH_INCREMENT as nat).new_line();
        let chars = bytes.map_values(|b: u8| char_of(b));
        Self::empty(GROWTH_INCREMENT as nat).new_line_keeps_valid();
        assert(start.text() =~= seq![Seq::<char>::empty()]);
        assert(start.bytes() =~= Seq::<u8>::empty());
        start.typed_at_end(bytes);
        assert(start.bytes() + without_returns(bytes) =~= without_returns(bytes));
        if bytes.len() > 0 && bytes.last() != 10u8 {
            start.typed_push(chars, '\n');
            start.typed(chars).put_char_at_end('\n');
        } else {
            assert(without_returns(bytes) + Seq::<u8>::empty() =~= without_returns(bytes));
        }
    }

    /// A stream without carriage returns that is empty or ends in a line
    /// feed is saved as it was loaded.
    pub proof fn load_then_save_round_trip(bytes: Seq<u8>)
        requires
            forall|i: int| 0 <= i < bytes.len() ==> bytes[i] != 13u8,
            bytes.len() == 0 || bytes.last() == 10u8,
        ensures
            Self::loaded(bytes).bytes() == bytes,
    {
        Self::save_after_load(bytes);
        no_returns_kept(bytes);
    }

    /// A stream whose last line has no line feed is not saved as it was
    /// loaded: what is saved ends in a line feed.
    pub proof fn load_then_save_adds_line_feed(bytes: Seq<u8>)
        requires
            bytes.len() > 0,
            bytes.last() != 10u8,
        ensures
            Self::loaded(bytes).bytes() != bytes,
            Self::loaded(bytes).bytes().last() == 10u8,
    {
        Self::save_after_load(bytes);
    }
}

/// A stream without carriage returns is kept whole.
proof fn no_returns_kept(bytes: Seq<u8>)
    requires
        forall|i: int| 0 <= i < bytes.len() ==> bytes[i] != 13u8,
    ensures
        without_returns(bytes) == bytes,
    decreases bytes.len(),
{
    reveal(Seq::filter);
    if bytes.len() > 0 {
        no_returns_kept(bytes.drop_last());
        assert(bytes.drop_last().push(bytes.last()) =~= bytes);
    }
}

} // verus!
