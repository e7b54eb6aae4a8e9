use crate::buffer::Buffer;
use crate::document::Document;
use vstd::prelude::*;

verus! {

/// The key that takes back the last key of a command.
pub const BACKSPACE: char = '\u{8}';

/// The key that stands in a combination for the control key held down.
pub const CTRL: char = '\u{11}';

/// The escape key.
pub const ESC: char = '\u{1b}';

/// The two modes of the editor: in `Normal` keys build commands, in `Insert`
/// they are typed into the buffer.
#[derive(Debug, Clone, Copy)]
pub enum Mode {
    Normal,
    Insert,
}

/// A region of the text between two positions.
#[derive(Debug, Clone, Copy)]
pub struct Selection {
    pub start_line: usize,
    pub start_col: usize,
    pub end_line: usize,
    pub end_col: usize,
}

/// What the caller of `Engine::input` has to do next.
#[derive(Debug, Clone, Copy)]
pub enum Action {
    /// Read the next key.
    Continue,
    /// Write the buffer to its file, then read the next key.
    Write,
    /// Leave the editor.
    Quit,
}

/// The key combinations of each command, as plain sequences.
#[verifier::ext_equal]
pub struct Bindings {
    pub open_line_above: Seq<Seq<char>>,
    pub open_line_below: Seq<Seq<char>>,
    pub go_to_start: Seq<Seq<char>>,
    pub go_to_end: Seq<Seq<char>>,
    pub go_to_left: Seq<Seq<char>>,
    pub go_to_down: Seq<Seq<char>>,
    pub go_to_up: Seq<Seq<char>>,
    pub go_to_right: Seq<Seq<char>>,
    pub go_to_normal_mode: Seq<Seq<char>>,
    pub insert_char_here: Seq<Seq<char>>,
    pub write_buffer: Seq<Seq<char>>,
    pub quit_editor: Seq<Seq<char>>,
}

impl Bindings {
    /// The combinations that the editor starts with.
    pub open spec fn standard() -> Self {
        Bindings {
            open_line_above: seq![seq!['o']],
            open_line_below: seq![seq!['O']],
            go_to_start: seq![seq!['0']],
            go_to_end: seq![seq!['$']],
            go_to_left: seq![seq!['h']],
            go_to_down: seq![seq!['j']],
            go_to_up: seq![seq!['k']],
            go_to_right: seq![seq!['l']],
            go_to_normal_mode: seq![seq![CTRL, '['], seq![ESC]],
            insert_char_here: seq![seq!['i']],
            write_buffer: seq![seq![':', 'w', '\n']],
            quit_editor: seq![seq![':', 'q', '\n']],
        }
    }
}

/// The combinations of `combinations` as plain sequences.
pub open spec fn combinations_view(combinations: Seq<Vec<char>>) -> Seq<Seq<char>> {
    combinations.map_values(|keys: Vec<char>| keys@)
}

/// The key combinations that call each command of the editor.
#[derive(Debug)]
pub struct Configuration {
    open_line_above: Vec<Vec<char>>,
    open_line_below: Vec<Vec<char>>,
    go_to_start: Vec<Vec<char>>,
    go_to_end: Vec<Vec<char>>,
    go_to_left: Vec<Vec<char>>,
    go_to_down: Vec<Vec<char>>,
    go_to_up: Vec<Vec<char>>,
    go_to_right: Vec<Vec<char>>,
    go_to_normal_mode: Vec<Vec<char>>,
    insert_char_here: Vec<Vec<char>>,
    write_buffer: Vec<Vec<char>>,
    quit_editor: Vec<Vec<char>>,
}

impl View for Configuration {
    type V = Bindings;

    closed spec fn view(&self) -> Bindings {
        Bindings {
            open_line_above: combinations_view(self.open_line_above@),
            open_line_below: combinations_view(self.open_line_below@),
            go_to_start: combinations_view(self.go_to_start@),
            go_to_end: combinations_view(self.go_to_end@),
            go_to_left: combinations_view(self.go_to_left@),
            go_to_down: combinations_view(self.go_to_down@),
            go_to_up: combinations_view(self.go_to_up@),
            go_to_right: combinations_view(self.go_to_right@),
            go_to_normal_mode: combinations_view(self.go_to_normal_mode@),
            insert_char_here: combinations_view(self.insert_char_here@),
            write_buffer: combinations_view(self.write_buffer@),
            quit_editor: combinations_view(self.quit_editor@),
        }
    }
}

/// Returns the one combination made of the keys `keys`.
fn one_combination(keys: Vec<char>) -> (combinations: Vec<Vec<char>>)
    ensures
        combinations_view(combinations@) == seq![keys@],
{
    let mut combinations: Vec<Vec<char>> = Vec::new();
    combinations.push(keys);
    assert(combinations_view(combinations@) =~= seq![keys@]);
    combinations
}

/// Returns the combination of the one key `key`.
fn one_key(key: char) -> (combinations: Vec<Vec<char>>)
    ensures
        combinations_view(combinations@) == seq![seq![key]],
{
    let mut keys: Vec<char> = Vec::new();
    keys.push(key);
    assert(keys@ =~= seq![key]);
    one_combination(keys)
}

/// Returns the combination of a colon, the key `key` and a line feed.
fn one_colon_command(key: char) -> (combinations: Vec<Vec<char>>)
    ensures
        combinations_view(combinations@) == seq![seq![':', key, '\n']],
{
    let mut keys: Vec<char> = Vec::new();
    keys.push(':');
    keys.push(key);
    keys.push('\n');
    assert(keys@ =~= seq![':', key, '\n']);
    one_combination(keys)
}

/// Returns the two combinations that lead back to normal mode.
fn escapes() -> (combinations: Vec<Vec<char>>)
    ensures
        combinations_view(combinations@) == seq![seq![CTRL, '['], seq![ESC]],
{
    let mut first: Vec<char> = Vec::new();
    first.push(CTRL);
    first.push('[');
    let mut second: Vec<char> = Vec::new();
    second.push(ESC);
    let mut combinations: Vec<Vec<char>> = Vec::new();
    combinations.push(first);
    combinations.push(second);
    assert(first@ =~= seq![CTRL, '[']);
    assert(second@ =~= seq![ESC]);
    assert(combinations_view(combinations@) =~= seq![first@, second@]);
    combinations
}

/// Returns the combinations that the editor starts with.
pub fn default_configuration() -> (configuration: Configuration)
    ensures
        configuration@ == Bindings::standard(),
{
    Configuration {
        open_line_above: one_key('o'),
        open_line_below: one_key('O'),
        go_to_start: one_key('0'),
        go_to_end: one_key('$'),
        go_to_left: one_key('h'),
        go_to_down: one_key('j'),
        go_to_up: one_key('k'),
        go_to_right: one_key('l'),
        go_to_normal_mode: escapes(),
        insert_char_here: one_key('i'),
        write_buffer: one_colon_command('w'),
        quit_editor: one_colon_command('q'),
    }
}

/// Whether the keys `left` and `right` are the same.
fn same_keys(left: &Vec<char>, right: &Vec<char>) -> (same: bool)
    ensures
        same == (left@ == right@),
{
    if left.len() != right.len() {
        return false;
    }
    let mut index: usize = 0;
    while index < left.len()
        invariant
            left.len() == right.len(),
            index <= left.len(),
            forall|i: int| 0 <= i < index ==> left@[i] == right@[i],
        decreases left.len() - index,
    {
        if left[index] != right[index] {
            return false;
        }
        index += 1;
    }
    assert(left@ =~= right@);
    true
}

/// Whether `command` is one of `combinations`.
fn is_bound(combinations: &Vec<Vec<char>>, command: &Vec<char>) -> (bound: bool)
    ensures
        bound == combinations_view(combinations@).contains(command@),
{
    let mut index: usize = 0;
    while index < combinations.len()
        invariant
            index <= combinations.len(),
            forall|i: int| 0 <= i < index ==> combinations_view(combinations@)[i] != command@,
        decreases combinations.len() - index,
    {
        if same_keys(&combinations[index], command) {
            assert(combinations_view(combinations@)[index as int] == command@);
            return true;
        }
        index += 1;
    }
    false
}

/// What an editor is to its users: its mode, its text, its key combinations
/// and the keys of the command that is being typed.
#[verifier::ext_equal]
pub struct Session {
    pub mode: Mode,
    pub document: Document,
    pub bindings: Bindings,
    pub command: Seq<char>,
}

impl Session {
    /// A session in normal mode over an empty document.
    pub open spec fn start() -> Self {
        Session {
            mode: Mode::Normal,
            document: Document::empty(crate::content::GROWTH_INCREMENT as nat),
            bindings: Bindings::standard(),
            command: Seq::empty(),
        }
    }

    /// The command that is being typed is forgotten.
    pub open spec fn cleared(self) -> Self {
        Session { command: Seq::empty(), ..self }
    }

    /// The editor changes to `mode` and forgets the command.
    pub open spec fn switched(self, mode: Mode) -> Self {
        Session { mode, ..self.cleared() }
    }

    /// The document is replaced by `document`.
    pub open spec fn with_document(self, document: Document) -> Self {
        Session { document, ..self }
    }

    /// The cursor moves one row down, if it stands behind a character.
    pub open spec fn down(self) -> Self {
        match self.document.cursor_index() {
            Some((row, col)) => self.with_document(self.document.move_cursor(row + 1, col)),
            None => self,
        }
    }

    /// The cursor moves one row up, if it stands behind a character; from
    /// the first row it moves to the first row.
    pub open spec fn up(self) -> Self {
        match self.document.cursor_index() {
            Some((row, col)) => self.with_document(
                self.document.move_cursor(
                    if row > 0 {
                        (row - 1) as nat
                    } else {
                        0
                    },
                    col,
                ),
            ),
            None => self,
        }
    }

    /// The cursor moves one column to the left, if it stands behind a
    /// character; from the first column it moves to the first column.
    pub open spec fn left(self) -> Self {
        match self.document.cursor_index() {
            Some((row, col)) => self.with_document(
                self.document.move_cursor(
                    row,
                    if col > 0 {
                        (col - 1) as nat
                    } else {
                        0
                    },
                ),
            ),
            None => self,
        }
    }

    /// The cursor moves one column to the right, if it stands behind a
    /// character.
    pub open spec fn right(self) -> Self {
        match self.document.cursor_index() {
            Some((row, col)) => self.with_document(self.document.move_cursor(row, col + 1)),
            None => self,
        }
    }

    /// The command after a backspace was typed behind it: the backspace and
    /// the key before it are gone.
    pub open spec fn taken_back(command: Seq<char>) -> Seq<char> {
        command.take(
            if command.len() > 1 {
                command.len() - 2
            } else {
                command.len() - 1
            },
        )
    }

    /// Whether the stores that the key `ch` may have to grow can be
    /// addressed.
    pub open spec fn can_input(self, ch: char) -> bool {
        let command = self.command.push(ch);
        match self.mode {
            Mode::Insert => self.bindings.go_to_normal_mode.contains(command)
                || self.document.can_put(ch),
            Mode::Normal => ch == BACKSPACE || !(self.bindings.open_line_above.contains(command)
                || self.bindings.open_line_below.contains(command))
                || self.document.lines.has_room(),
        }
    }

    /// The session after the key `ch`.
    ///
    /// In insert mode the key is typed into the document, unless it
    /// completes a combination that leads back to normal mode. In normal
    /// mode the key is added to the command; a backspace takes itself and
    /// the key before it back; a command that is a combination is carried
    /// out, and all but the two that open a line and the one that changes to
    /// insert mode then clear the command. Writing is left to the caller, so
    /// the document is as before.
    pub open spec fn input(self, ch: char) -> Self {
        let command = self.command.push(ch);
        let keyed = Session { command, ..self };
        match self.mode {
            Mode::Insert => if self.bindings.go_to_normal_mode.contains(command) {
                self.switched(Mode::Normal)
            } else {
                self.with_document(self.document.put_char(ch))
            },
            Mode::Normal => if ch == BACKSPACE {
                Session { command: Self::taken_back(command), ..self }
            } else if self.bindings.open_line_above.contains(command) {
                keyed.up().with_document(keyed.up().document.new_line())
            } else if self.bindings.open_line_below.contains(command) {
                keyed.with_document(self.document.new_line())
            } else if self.bindings.go_to_left.contains(command) {
                keyed.left().cleared()
            } else if self.bindings.go_to_right.contains(command) {
                keyed.right().cleared()
            } else if self.bindings.go_to_up.contains(command) {
                keyed.up().cleared()
            } else if self.bindings.go_to_down.contains(command) {
                keyed.down().cleared()
            } else if self.bindings.insert_char_here.contains(command) {
                keyed.switched(Mode::Insert)
            } else if self.bindings.write_buffer.contains(command) {
                keyed.cleared()
            } else if self.bindings.quit_editor.contains(command) {
                keyed.cleared()
            } else {
                keyed
            },
        }
    }

    /// What the caller has to do after the key `ch`: write the buffer after
    /// the command to write, leave after the command to quit, and go on
    /// after anything else.
    pub open spec fn action(self, ch: char) -> Action {
        let command = self.command.push(ch);
        match self.mode {
            Mode::Insert => Action::Continue,
            Mode::Normal => if ch == BACKSPACE || self.bindings.open_line_above.contains(command)
                || self.bindings.open_line_below.contains(command)
                || self.bindings.go_to_left.contains(command)
                || self.bindings.go_to_right.contains(command)
                || self.bindings.go_to_up.contains(command)
                || self.bindings.go_to_down.contains(command)
                || self.bindings.insert_char_here.contains(command) {
                Action::Continue
            } else if self.bindings.write_buffer.contains(command) {
                Action::Write
            } else if self.bindings.quit_editor.contains(command) {
                Action::Quit
            } else {
                Action::Continue
            },
        }
    }
}

/// A modal editor over one text buffer.
#[derive(Debug)]
pub struct Engine {
    mode: Mode,
    buffer: Buffer,
    conf: Configuration,
    command_buffer: Vec<char>,
}

impl View for Engine {
    type V = Session;

    closed spec fn view(&self) -> Session {
        Session {
            mode: self.mode,
            document: self.buffer@,
            bindings: self.conf@,
            command: self.command_buffer@,
        }
    }
}

impl Engine {
    /// Returns an editor in normal mode over an empty buffer, with the
    /// combinations of `default_configuration`.
    pub fn new() -> (engine: Self)
        ensures
            engine@ == Session::start(),
    {
        Engine {
            mode: Mode::Normal,
            buffer: Buffer::new(),
            conf: default_configuration(),
            command_buffer: Vec::new(),
        }
    }

    /// Returns the text buffer.
    pub fn buffer(&self) -> (buffer: &Buffer)
        ensures
            buffer@ == self@.document,
    {
        &self.buffer
    }

    /// Returns the bytes to write to the file `path`, and counts the buffer
    /// as saved to it.
    pub fn write_buffer(&mut self, path: &str) -> (bytes: Vec<u8>)
        ensures
            bytes@ == old(self)@.document.bytes(),
            final(self)@ == old(self)@.with_document(old(self)@.document.saved_as(path@)),
    {
        self.buffer.save_buffer(path)
    }

    /// Takes one key and says what the caller has to do next.
    pub fn input(&mut self, ch: char) -> (action: Action)
        requires
            old(self)@.can_input(ch),
        ensures
            final(self)@ == old(self)@.input(ch),
            action == old(self)@.action(ch),
    {
        let mut action = Action::Continue;
        match self.mode {
            Mode::Insert => {
                self.command_buffer.push(ch);
                if is_bound(&self.conf.go_to_normal_mode, &self.command_buffer) {
                    self.switch_mode(Mode::Normal);
                } else {
                    let len = self.command_buffer.len() - 1;
                    self.command_buffer.truncate(len);
                    assert(self.command_buffer@ =~= old(self).command_buffer@);
                    self.buffer.put_char(ch);
                }
            },
            Mode::Normal => {
                self.command_buffer.push(ch);
                if ch == BACKSPACE {
                    let len = if self.command_buffer.len() > 1 {
                        self.command_buffer.len() - 2
                    } else {
                        self.command_buffer.len() - 1
                    };
                    self.command_buffer.truncate(len);
                } else if is_bound(&self.conf.open_line_above, &self.command_buffer) {
                    self.open_line_above();
                } else if is_bound(&self.conf.open_line_below, &self.command_buffer) {
                    self.open_line_below();
                } else if is_bound(&self.conf.go_to_left, &self.command_buffer) {
                    self.left();
                    self.clear_command_buffer();
                } else if is_bound(&self.conf.go_to_right, &self.command_buffer) {
                    self.right();
                    self.clear_command_buffer();
                } else if is_bound(&self.conf.go_to_up, &self.command_buffer) {
                    self.up();
                    self.clear_command_buffer();
                } else if is_bound(&self.conf.go_to_down, &self.command_buffer) {
                    self.down();
                    self.clear_command_buffer();
                } else if is_bound(&self.conf.insert_char_here, &self.command_buffer) {
                    self.switch_mode(Mode::Insert);
                } else if is_bound(&self.conf.write_buffer, &self.command_buffer) {
                    action = Action::Write;
                    self.clear_command_buffer();
                } else if is_bound(&self.conf.quit_editor, &self.command_buffer) {
                    action = Action::Quit;
                    self.clear_command_buffer();
                }
            },
        }
        action
    }

    fn open_line_above(&mut self)
        requires
            old(self)@.document.lines.has_room(),
        ensures
            final(self)@ == old(self)@.up().with_document(old(self)@.up().document.new_line()),
    {
        self.up();
        self.buffer.new_line();
    }

    fn open_line_below(&mut self)
        requires
            old(self)@.document.lines.has_room(),
        ensures
            final(self)@ == old(self)@.with_document(old(self)@.document.new_line()),
    {
        self.buffer.new_line();
    }

    fn down(&mut self)
        ensures
            final(self)@ == old(self)@.down(),
    {
        match self.buffer.get_cursor_index() {
            Some((row, col)) => {
                self.buffer.move_cursor(row + 1, col);
            },
            None => {},
        }
    }

    fn up(&mut self)
        ensures
            final(self)@ == old(self)@.up(),
    {
        match self.buffer.get_cursor_index() {
            Some((row, col)) => {
                self.buffer.move_cursor(
                    if row > 0 {
                        row - 1
                    } else {
                        0
                    },
                    col,
                );
            },
            None => {},
        }
    }

    fn left(&mut self)
        ensures
            final(self)@ == old(self)@.left(),
    {
        match self.buffer.get_cursor_index() {
            Some((row, col)) => {
                self.buffer.move_cursor(
                    row,
                    if col > 0 {
                        col - 1
                    } else {
                        0
                    },
                );
            },
            None => {},
        }
    }

    fn right(&mut self)
        ensures
            final(self)@ == old(self)@.right(),
    {
        match self.buffer.get_cursor_index() {
            Some((row, col)) => {
                self.buffer.move_cursor(row, col + 1);
            },
            None => {},
        }
    }

    fn switch_mode(&mut self, mode: Mode)
        ensures
            final(self)@ == old(self)@.switched(mode),
    {
        self.clear_command_buffer();
        self.mode = mode;
    }

    fn clear_command_buffer(&mut self)
        ensures
            final(self)@ == old(self)@.cleared(),
    {
        self.command_buffer.clear();
    }
}

} // verus!
