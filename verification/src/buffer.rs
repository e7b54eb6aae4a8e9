use crate::content::{Content, GROWTH_INCREMENT};
use crate::document::{joined, line_bytes, typed_stream, Document};
use crate::gap_buffer::GapBuffer;
use crate::line::LineBuffer;
use vstd::prelude::*;

verus! {

/// The views of `rows`, with their cursor and capacity.
pub open spec fn rows_view(rows: Content<LineBuffer>) -> Content<Content<char>> {
    Content {
        items: rows.items.map_values(|line: LineBuffer| line@),
        cursor: rows.cursor,
        capacity: rows.capacity,
    }
}

/// A text buffer: a gap buffer of lines whose cursor stands just behind the
/// current line, the name of the file it was last saved to, and whether it
/// was saved since its last edit.
#[derive(Debug)]
pub struct Buffer {
    file_name: Option<String>,
    is_saved: bool,
    lines: GapBuffer<LineBuffer>,
}

impl View for Buffer {
    type V = Document;

    closed spec fn view(&self) -> Document {
        Document {
            lines: rows_view(self.lines@),
            file_name: match self.file_name {
                Some(name) => Some(name@),
                None => None,
            },
            saved: self.is_saved,
        }
    }
}

impl Buffer {
    /// The lines themselves, of which the view shows the views.
    pub closed spec fn rows(self) -> Content<LineBuffer> {
        self.lines@
    }

    /// The view's lines are the views of `rows`.
    pub proof fn view_of_rows(self)
        ensures
            self@.lines == rows_view(self.rows()),
    {
    }

    /// Returns an empty buffer with room for `capacity` lines.
    pub fn with_capacity(capacity: usize) -> (buffer: Self)
        ensures
            buffer@ == Document::empty(capacity as nat),
    {
        let buffer = Buffer {
            file_name: None,
            is_saved: false,
            lines: GapBuffer::with_capacity(capacity),
        };
        assert(buffer@.lines.items =~= Seq::empty());
        buffer
    }

    /// Returns an empty buffer with room for `GROWTH_INCREMENT` lines.
    pub fn new() -> (buffer: Self)
        ensures
            buffer@ == Document::empty(GROWTH_INCREMENT as nat),
    {
        Self::with_capacity(GROWTH_INCREMENT)
    }

    /// Whether the buffer holds no line.
    pub fn is_empty(&self) -> (empty: bool)
        ensures
            empty == (self@.lines.items.len() == 0),
    {
        self.lines.count() == 0
    }

    /// Returns the number of lines.
    pub fn count(&self) -> (n: usize)
        ensures
            n == self@.lines.items.len(),
            self@.lines.valid(),
    {
        self.lines.count()
    }

    /// Whether the buffer was saved since its last edit.
    pub fn is_saved(&self) -> (saved: bool)
        ensures
            saved == self@.saved,
    {
        self.is_saved
    }

    /// Returns the name of the file that the buffer was last saved to.
    pub fn file_name(&self) -> (name: Option<&String>)
        ensures
            match name {
                Some(path) => self@.file_name == Some(path@),
                None => self@.file_name is None,
            },
    {
        self.file_name.as_ref()
    }

    /// Returns the line in row `idx`, if the buffer has that many.
    pub fn get_line_at(&self, idx: usize) -> (found: Option<&LineBuffer>)
        ensures
            match found {
                Some(line) => idx < self@.lines.items.len() && line@ == self@.lines.items[idx as int]
                    && *line == self.rows().items[idx as int],
                None => idx >= self@.lines.items.len(),
            },
    {
        self.lines.get(idx)
    }

    /// Returns the row of the current line, if there is one.
    pub fn get_current_line_index(&self) -> (index: Option<usize>)
        ensures
            match index {
                Some(row) => self@.lines.current() == Some(row as nat) && row < usize::MAX,
                None => self@.lines.current() is None,
            },
            self@.lines.valid(),
    {
        let caret = self.lines.get_current_index();
        if caret > 0 {
            Some(caret - 1)
        } else {
            None
        }
    }

    /// Returns the current line: the one just before the cursor.
    pub fn get_current_line(&self) -> (found: Option<&LineBuffer>)
        ensures
            match found {
                Some(line) => self@.current_line() == Some(line@),
                None => self@.current_line() is None,
            },
    {
        let caret = self.lines.get_current_index();
        if caret > 0 {
            self.get_line_at(caret - 1)
        } else {
            None
        }
    }

    /// Returns the line in row `idx` for the caller to edit in place, if the
    /// buffer has that many. What the caller makes of the line takes its
    /// place; nothing else changes.
    pub fn get_mut_line_at(&mut self, idx: usize) -> (found: Option<&mut LineBuffer>)
        ensures
            idx >= old(self)@.lines.items.len() ==> found is None && *final(self) == *old(self),
            idx < old(self)@.lines.items.len() ==> match found {
                Some(line) => {
                    &&& line@ == old(self)@.lines.items[idx as int]
                    &&& final(self)@ == old(self)@.with_line(idx as int, final(line)@)
                },
                None => false,
            },
    {
        let ghost before = self.lines@;
        let found = self.lines.get_mut(idx);
        proof {
            if idx < before.items.len() {
                let line = found->0;
                assert(rows_view(before.replace(idx as int, *final(line))).items =~= rows_view(
                    before,
                ).replace(idx as int, final(line)@).items);
            }
        }
        found
    }

    /// Returns the current line for the caller to edit in place.
    pub fn get_mut_current_line(&mut self) -> (found: Option<&mut LineBuffer>)
        ensures
            match old(self)@.lines.current() {
                Some(row) => match found {
                    Some(line) => {
                        &&& line@ == old(self)@.lines.items[row as int]
                        &&& final(self)@ == old(self)@.with_line(row as int, final(line)@)
                    },
                    None => false,
                },
                None => found is None && *final(self) == *old(self),
            },
    {
        let caret = self.lines.get_current_index();
        if caret > 0 {
            self.get_mut_line_at(caret - 1)
        } else {
            None
        }
    }

    /// Returns row and column of the character just before the two cursors.
    pub fn get_cursor_index(&self) -> (index: Option<(usize, usize)>)
        ensures
            match index {
                Some((row, column)) => self@.cursor_index() == Some((row as nat, column as nat))
                    && row < usize::MAX && column < usize::MAX,
                None => self@.cursor_index() is None,
            },
    {
        match self.get_current_line_index() {
            Some(row) => match self.get_line_at(row) {
                Some(line) => match line.get_current_index() {
                    Some(column) => Some((row, column)),
                    None => None,
                },
                None => None,
            },
            None => None,
        }
    }

    /// Moves the cursor to row `seek_to`, or to the last line when the buffer
    /// has fewer.
    pub fn seek(&mut self, seek_to: usize)
        ensures
            final(self)@ == old(self)@.seek(seek_to as nat),
    {
        self.lines.seek(seek_to);
    }

    /// Moves the cursor to `row` and the cursor of the line that is current
    /// there to `col`, each as far as the lines and the line reach.
    pub fn move_cursor(&mut self, row: usize, col: usize)
        ensures
            final(self)@ == old(self)@.move_cursor(row as nat, col as nat),
    {
        self.seek(row);
        match self.get_mut_current_line() {
            Some(line) => {
                line.seek(col);
            },
            None => {},
        }
    }

    /// Starts an empty line at the cursor, which becomes the current line.
    pub fn new_line(&mut self)
        requires
            old(self)@.lines.has_room(),
        ensures
            final(self)@ == old(self)@.new_line(),
    {
        let ghost before = self.lines@;
        let line = LineBuffer::new();
        self.lines.insert(line);
        self.is_saved = false;
        assert(rows_view(before.insert(line)).items =~= rows_view(before).insert(line@).items);
    }

    /// Removes the current line; without one nothing changes.
    pub fn delete(&mut self)
        ensures
            final(self)@ == old(self)@.delete(),
            old(self)@.lines.cursor == 0 ==> *final(self) == *old(self),
    {
        let ghost before = self.lines@;
        if self.lines.get_current_index() > 0 {
            self.lines.delete();
            self.is_saved = false;
            assert(rows_view(before.delete()).items =~= rows_view(before).delete().items);
        }
    }

    /// Takes one typed character: a carriage return is dropped, a line feed
    /// starts a new line, any other character goes into the current line.
    pub fn put_char(&mut self, ch: char)
        requires
            old(self)@.can_put(ch),
        ensures
            final(self)@ == old(self)@.put_char(ch),
    {
        if ch == '\r' {
            return ;
        } else if ch == '\n' {
            self.new_line();
        } else {
            match self.get_mut_current_line() {
                Some(line) => {
                    line.insert(ch);
                },
                None => {},
            }
        }
        self.is_saved = false;
    }

    /// Returns a buffer with the same cursor and the same room that holds, in
    /// place of each line, what `f` makes of it. It keeps the file name and
    /// counts as not saved.
    pub fn apply_to_all<F: Fn(&LineBuffer) -> LineBuffer>(&self, f: F) -> (mapped: Buffer)
        requires
            forall|row: int|
                0 <= row < self.rows().items.len() ==> call_requires(
                    f,
                    (&#[trigger] self.rows().items[row],),
                ),
        ensures
            mapped.rows().items.len() == self.rows().items.len(),
            forall|row: int|
                0 <= row < self.rows().items.len() ==> call_ensures(
                    f,
                    (&self.rows().items[row],),
                    #[trigger] mapped.rows().items[row],
                ),
            mapped@.lines.cursor == self@.lines.cursor,
            mapped@.lines.capacity == self@.lines.capacity,
            mapped@.file_name == self@.file_name,
            !mapped@.saved,
    {
        let file_name = match &self.file_name {
            Some(name) => Some(name.clone()),
            None => None,
        };
        assert(self.rows() == self.lines@);
        Buffer { file_name, is_saved: false, lines: self.lines.map(f) }
    }

    /// Calls `f` on every line, from the first row to the last.
    pub fn for_each<F: FnMut(&LineBuffer)>(&self, f: F)
        requires
            forall|row: int|
                0 <= row < self.rows().items.len() ==> call_requires(
                    f,
                    (&#[trigger] self.rows().items[row],),
                ),
        ensures
            forall|row: int|
                0 <= row < self.rows().items.len() ==> call_ensures(
                    f,
                    (&#[trigger] self.rows().items[row],),
                    (),
                ),
    {
        assert(self.rows() == self.lines@);
        self.lines.for_each(f);
    }

    /// Returns the bytes to write to the file `path`: each line's characters,
    /// with a line feed behind every line but the last. The buffer then
    /// counts as saved to `path`.
    pub fn save_buffer(&mut self, path: &str) -> (bytes: Vec<u8>)
        ensures
            bytes@ == old(self)@.bytes(),
            final(self)@ == old(self)@.saved_as(path@),
    {
        let line_num = self.lines.count();
        let ghost text = self@.text();
        let mut bytes: Vec<u8> = Vec::new();
        let mut row: usize = 0;
        while row < line_num
            invariant
                *self == *old(self),
                text == self@.text(),
                line_num == text.len(),
                row <= line_num,
                bytes@ == joined(text.take(row as int)) + if 0 < row < line_num {
                    seq![10u8]
                } else {
                    Seq::<u8>::empty()
                },
            decreases line_num - row,
        {
            let ghost written = bytes@;
            match self.lines.get(row) {
                Some(line) => {
                    let columns = line.count();
                    let mut column: usize = 0;
                    while column < columns
                        invariant
                            columns == line@.items.len(),
                            column <= columns,
                            bytes@ == written + line_bytes(line@.items.take(column as int)),
                        decreases columns - column,
                    {
                        match line.get_char_at(column) {
                            Some(ch) => {
                                bytes.push(#[verifier::truncate] (*ch as u8));
                            },
                            None => {},
                        }
                        assert(line@.items.take(column + 1) =~= line@.items.take(
                            column as int,
                        ).push(line@.items[column as int]));
                        column += 1;
                    }
                    assert(line@.items.take(columns as int) =~= line@.items);
                },
                None => {},
            }
            assert(text.take(row + 1).drop_last() =~= text.take(row as int));
            row += 1;
            if row < line_num {
                bytes.push(10u8);
            }
        }
        assert(text.take(line_num as int) =~= text);
        self.is_saved = true;
        self.file_name = Some(path.to_string());
        bytes
    }

    /// Returns the buffer for the stream `bytes`, one character for each
    /// byte: it starts with one empty line and takes the stream as typed, with
    /// a line feed behind the last line where the stream has none there.
    pub fn load(bytes: &[u8]) -> (buffer: Buffer)
        requires
            bytes@.len() + GROWTH_INCREMENT < usize::MAX,
        ensures
            buffer@ == Document::loaded(bytes@),
    {
        let ghost stream = typed_stream(bytes@);
        let mut buffer = Buffer::new();
        buffer.new_line();
        let mut index: usize = 0;
        proof {
            Document::empty(GROWTH_INCREMENT as nat).new_line_keeps_valid();
            assert(stream.skip(0) =~= stream);
        }
        while index < bytes.len()
            invariant
                index <= bytes.len(),
                bytes@.len() + GROWTH_INCREMENT < usize::MAX,
                stream == typed_stream(bytes@),
                buffer@.typed(stream.skip(index as int)) == Document::loaded(bytes@),
                buffer@.valid(),
                1 <= buffer@.lines.cursor,
                buffer@.lines.items.len() <= index + 1,
                forall|row: int|
                    0 <= row < buffer@.lines.items.len() ==> (
                    #[trigger] buffer@.lines.items[row]).items.len() <= index,
            decreases bytes.len() - index,
        {
            let ghost before = buffer@;
            let ch = bytes[index] as char;
            assert(stream.skip(index as int).skip(1) =~= stream.skip(index + 1));
            assert(stream.skip(index as int)[0] == ch);
            buffer.put_char(ch);
            proof {
                before.put_char_keeps_valid(ch);
                let at = before.lines.cursor as int;
                assert forall|row: int| 0 <= row < buffer@.lines.items.len() implies (
                #[trigger] buffer@.lines.items[row]).items.len() <= index + 1 by {
                    if ch == '\r' {
                    } else if ch == '\n' {
                        if row > at {
                            assert(buffer@.lines.items[row] == before.lines.items[row - 1]);
                        } else if row < at {
                            assert(buffer@.lines.items[row] == before.lines.items[row]);
                        }
                    } else {
                        assert(before.lines.items[row].valid());
                        assert(before.lines.items[row].items.len() <= index);
                    }
                }
            }
            index += 1;
        }
        if bytes.len() > 0 && bytes[bytes.len() - 1] != 10u8 {
            let ghost before = buffer@;
            let ghost rest = stream.skip(index as int);
            assert(rest =~= seq!['\n']);
            assert(rest.skip(1) =~= Seq::<char>::empty());
            assert(before.typed(rest) == before.put_char('\n').typed(rest.skip(1)));
            buffer.put_char('\n');
        } else {
            assert(stream.skip(index as int) =~= Seq::<char>::empty());
        }
        buffer
    }
}

/// Moves the buffer's cursor to `row`.
pub fn seek_to_line(buffer: &mut Buffer, row: usize)
    ensures
        final(buffer)@ == old(buffer)@.seek(row as nat),
{
    buffer.seek(row);
}

/// Moves the buffer's cursor to `row` and that of the line which is current
/// there to `col`.
pub fn seek_to_col(buffer: &mut Buffer, row: usize, col: usize)
    ensures
        final(buffer)@ == old(buffer)@.move_cursor(row as nat, col as nat),
{
    buffer.move_cursor(row, col);
}

/// Moves the cursor to `row` and removes the line before it.
pub fn delete_line(buffer: &mut Buffer, row: usize)
    ensures
        final(buffer)@ == old(buffer)@.delete_line(row as nat),
{
    buffer.seek(row);
    buffer.delete();
    buffer.is_saved = false;
}

/// Moves the two cursors to `row` and `col` and removes the character before
/// the column cursor.
pub fn delete_char(buffer: &mut Buffer, row: usize, col: usize)
    ensures
        final(buffer)@ == old(buffer)@.delete_char(row as nat, col as nat),
{
    buffer.move_cursor(row, col);
    match buffer.get_mut_current_line() {
        Some(line) => {
            line.delete();
        },
        None => {},
    }
    buffer.is_saved = false;
}

/// Takes one typed character into the buffer.
pub fn put_char(buffer: &mut Buffer, ch: char)
    requires
        old(buffer)@.can_put(ch),
    ensures
        final(buffer)@ == old(buffer)@.put_char(ch),
{
    buffer.put_char(ch);
}

} // verus!
