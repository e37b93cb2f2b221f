//! The editing session: a document, the cursor in it, and the part of it
//! that the screen shows.

use vstd::prelude::*;
use crate::cursor::{
    followed, held, line_len, overhangs, scroll_axis, shows, stepped, lemma_followed_twice,
    lemma_scrolled_shows, lemma_wrap_symmetry,
};
use crate::document::{char_deleted, char_inserted, Document};
use crate::lines::lines_of;
use crate::row::{rendered, Row};
use crate::std_specs::is_control_code;
use crate::terminal::Size;
use crate::text::{blank, byte_len, decimal, decimal_text, spaces, truncate, truncated};

verus! {

/// A place in a document: `y` counts lines and `x` grapheme clusters in
/// the line, both from 0.
#[derive(Clone, Copy, Debug, PartialEq, Eq, Structural)]
pub struct Position {
    pub x: usize,
    pub y: usize,
}

impl Default for Position {
    /// The first cluster of the first line.
    fn default() -> (origin: Position)
        ensures
            origin == (Position { x: 0, y: 0 }),
    {
        Position { x: 0, y: 0 }
    }
}

/// A key stroke, as far as the editor tells keys apart.
#[derive(Clone, Copy, Debug, PartialEq, Eq, Structural)]
pub enum Key {
    Backspace,
    Left,
    Right,
    Up,
    Down,
    PageUp,
    PageDown,
    Delete,
    Char(char),
    Ctrl(char),
    Esc,
    /// Any key that the editor does not act on.
    Other,
}

/// A message for the user, and the time at which it was set, in
/// milliseconds on the clock of whoever runs the session.
pub struct StatusMessage {
    pub text: String,
    pub time: u64,
}

impl StatusMessage {
    /// The message `msg`, set at `now`.
    pub fn from(msg: String, now: u64) -> (message: StatusMessage)
        ensures
            message.text@ == msg@,
            message.time == now,
    {
        StatusMessage { text: msg, time: now }
    }
}

/// What is left to do, outside the session, after a key stroke.
#[derive(Clone, Copy, Debug, PartialEq, Eq, Structural)]
pub enum Action {
    /// Nothing.
    Continue,
    /// Write what `Document::save` gives to the file that the document
    /// names, and tell the session how that went with `Editor::saved`.
    Save,
}

/// What the screen is to show: the rows of text from the top, the status
/// bar and the message bar below them, and the place of the cursor on the
/// screen, counted from 0.
pub struct Frame {
    pub rows: Vec<String>,
    pub status_bar: String,
    pub message_bar: String,
    pub cursor: Position,
}

/// For how many milliseconds a message is shown.
pub const MESSAGE_TIME: u64 = 5000;

/// A session as a value: what the contracts of `Editor` speak of.
pub struct EditorView {
    /// Whether the user has asked to leave.
    pub should_quit: bool,
    /// Where the cursor stands in the document.
    pub cursor: Position,
    /// The place in the document that the top left corner of the window
    /// shows.
    pub offset: Position,
    /// The lines of the document.
    pub lines: Seq<Seq<char>>,
    /// The name of the file that the document is saved to, if it has one.
    pub name: Option<Seq<char>>,
    /// The message for the user.
    pub message: Seq<char>,
    /// The time at which the message was set.
    pub message_time: u64,
    /// The size of the window.
    pub size: Size,
    /// What the user has typed so far of a file name that the session has
    /// asked for; `None` while it asks for none.
    pub prompt: Option<Seq<char>>,
}

impl EditorView {
    /// The cursor stands in the document: on a line or one past the last,
    /// and in its line on a cluster or one past the last.
    pub open spec fn wf(self) -> bool {
        &&& self.cursor.y <= self.lines.len()
        &&& self.cursor.x <= line_len(self.lines, self.cursor.y as int)
    }

    /// The window shows the cursor, along each axis on which it has room.
    pub open spec fn in_view(self) -> bool {
        &&& self.size.width > 0 ==> shows(
            self.offset.x as int,
            self.cursor.x as int,
            self.size.width as int,
        )
        &&& self.size.height > 0 ==> shows(
            self.offset.y as int,
            self.cursor.y as int,
            self.size.height as int,
        )
    }

    /// The session with `text` as its message, set at `now`.
    pub open spec fn with_message(self, text: Seq<char>, now: u64) -> EditorView {
        EditorView { message: text, message_time: now, ..self }
    }

    /// The session after the cursor is moved back to the end of its line,
    /// where it stands behind it: the window then shows the line from its
    /// start.
    pub open spec fn held(self) -> EditorView {
        EditorView {
            cursor: held(self.lines, self.cursor),
            offset: if overhangs(self.lines, self.cursor) {
                Position { x: 0, y: self.offset.y }
            } else {
                self.offset
            },
            ..self
        }
    }

    /// The session after `key` has moved the cursor, before the window
    /// follows.
    pub open spec fn cursor_moved(self, key: Key) -> EditorView {
        EditorView {
            cursor: stepped(self.lines, self.cursor, key, self.size.height as int),
            ..self
        }.held()
    }

    /// The session after the window has followed the cursor.
    pub open spec fn scrolled(self) -> EditorView {
        EditorView { offset: followed(self.offset, self.cursor, self.size), ..self }
    }

    /// The session after `c` is typed at the cursor.
    pub open spec fn typed(self, c: char) -> EditorView {
        EditorView {
            lines: char_inserted(self.lines, self.cursor.x as int, self.cursor.y as int, c),
            ..self
        }.cursor_moved(Key::Right)
    }

    /// The session after what stands in front of the cursor is deleted:
    /// the cursor goes left, what then stands at it goes, and the cursor is
    /// held to what is left of its line. At the start of the document
    /// nothing happens.
    pub open spec fn erased(self) -> EditorView {
        if self.cursor.x > 0 || self.cursor.y > 0 {
            let at = self.cursor_moved(Key::Left);
            EditorView {
                lines: char_deleted(at.lines, at.cursor.x as int, at.cursor.y as int),
                ..at
            }.held()
        } else {
            self
        }
    }

    /// The session after `key`, while it asks for no file name.
    pub open spec fn edited(self, key: Key, now: u64) -> EditorView {
        match key {
            Key::Ctrl(c) => if c == 'c' {
                EditorView { should_quit: true, ..self }.scrolled()
            } else if c == 's' {
                if self.name is None {
                    EditorView { prompt: Some(Seq::empty()), ..self }.with_message(
                        "Save as: "@,
                        now,
                    )
                } else {
                    self
                }
            } else {
                self.scrolled()
            },
            Key::Char(c) => self.typed(c).scrolled(),
            Key::Left | Key::Right | Key::Up | Key::PageUp | Key::Down | Key::PageDown =>
                self.cursor_moved(key).scrolled(),
            Key::Delete | Key::Backspace => self.erased().scrolled(),
            _ => self.scrolled(),
        }
    }

    /// The session that goes on asking for a file name, of which `input`
    /// is typed so far.
    pub open spec fn asking(self, input: Seq<char>, now: u64) -> EditorView {
        EditorView { prompt: Some(input), ..self }.with_message("Save as: "@ + input, now)
    }

    /// The session after the user has given `answer` as the file name: an
    /// empty answer calls the saving off, any other names the document.
    pub open spec fn answered(self, answer: Seq<char>, now: u64) -> EditorView {
        if answer.len() == 0 {
            EditorView { prompt: None, ..self }.with_message("Save aborted"@, now).scrolled()
        } else {
            EditorView { prompt: None, name: Some(answer), ..self }.with_message(
                Seq::empty(),
                now,
            )
        }
    }

    /// The session after `key`, while it asks for a file name: backspace
    /// takes the last character back, enter ends the asking with what is
    /// typed, escape ends it with nothing, a character that is no control
    /// code is added, and any other key changes nothing.
    pub open spec fn prompted(self, key: Key, now: u64) -> EditorView {
        let input = self.prompt->0;
        match key {
            Key::Backspace => self.asking(
                if input.len() > 0 {
                    input.drop_last()
                } else {
                    input
                },
                now,
            ),
            Key::Char(c) => if c == '\n' {
                self.answered(input, now)
            } else if is_control_code(c) {
                self.asking(input, now)
            } else {
                self.asking(input.push(c), now)
            },
            Key::Esc => self.answered(Seq::empty(), now),
            _ => self.asking(input, now),
        }
    }

    /// The session after `key`.
    pub open spec fn keyed(self, key: Key, now: u64) -> EditorView {
        if self.prompt is Some {
            self.prompted(key, now)
        } else {
            self.edited(key, now)
        }
    }

    /// Whether `key` has the document saved: control-S in a document that
    /// has a name, or enter behind a file name that is not empty.
    pub open spec fn saves(self, key: Key) -> bool {
        if self.prompt is Some {
            key == Key::Char('\n') && self.prompt->0.len() > 0
        } else {
            key == Key::Ctrl('s') && self.name is Some
        }
    }

    /// The session after it is told whether the document was written.
    pub open spec fn saved(self, written: bool, now: u64) -> EditorView {
        self.with_message(
            if written {
                "File saved successfully."@
            } else {
                "Error writing file!"@
            },
            now,
        ).scrolled()
    }

    /// The line that greets the user of the editor in version `version`: a
    /// tilde, then the greeting, moved towards the middle of the window by
    /// half of the columns that it leaves free, less one, and cut to the
    /// width of the window.
    pub open spec fn welcome_line(self, version: Seq<char>) -> Seq<char> {
        let message = "Hecto editor -- version "@ + version + seq!['\r'];
        let width = self.size.width as int;
        let padding = if width > byte_len(message) {
            (width - byte_len(message)) / 2
        } else {
            0
        };
        seq!['~'] + blank(padding - 1) + truncated(message, width)
    }

    /// What row `line` of the screen shows: the part of the document's
    /// line there that is in the window, the greeting on the row a third
    /// down the window of an empty document, and else a tilde.
    pub open spec fn screen_line(self, line: int, version: Seq<char>) -> Seq<char> {
        if line + self.offset.y < self.lines.len() {
            rendered(
                self.lines[line + self.offset.y],
                self.offset.x as int,
                self.offset.x + self.size.width,
            )
        } else if self.lines.len() == 0 && line == self.size.height / 3 {
            self.welcome_line(version)
        } else {
            "~"@
        }
    }

    /// The status bar: the name of the file, cut to 20 bytes, and the
    /// number of lines at the left; the line of the cursor, counted from
    /// 1, and the number of lines at the right, moved to the right edge of
    /// the window where there is room.
    pub open spec fn status_line(self) -> Seq<char> {
        let filename = match self.name {
            Some(name) => truncated(name, 20),
            None => "No Name"@,
        };
        let status = filename + " - "@ + decimal_text(self.lines.len()) + " lines"@;
        let indicator = decimal_text((self.cursor.y + 1) as nat) + "/"@ + decimal_text(
            self.lines.len(),
        );
        let len = byte_len(status) + byte_len(indicator);
        status + blank(self.size.width - len) + indicator
    }

    /// The message bar at the time `now`: the message, cut to the width of
    /// the window, while it is younger than `MESSAGE_TIME`, and then
    /// nothing.
    pub open spec fn message_line(self, now: u64) -> Seq<char> {
        if now - self.message_time < MESSAGE_TIME {
            truncated(self.message, self.size.width as int)
        } else {
            Seq::empty()
        }
    }

    /// The place of the cursor in the window.
    pub open spec fn cursor_on_screen(self) -> Position {
        Position {
            x: if self.cursor.x > self.offset.x {
                (self.cursor.x - self.offset.x) as usize
            } else {
                0
            },
            y: if self.cursor.y > self.offset.y {
                (self.cursor.y - self.offset.y) as usize
            } else {
                0
            },
        }
    }

    /// The session that starts on the file named `filename`, of which
    /// reading gave the text `source`, or failed where `source` is `None`:
    /// then the document is empty and has no name.
    pub open spec fn started(
        filename: Seq<char>,
        source: Option<Seq<char>>,
        size: Size,
        now: u64,
    ) -> EditorView {
        EditorView {
            should_quit: false,
            cursor: Position { x: 0, y: 0 },
            offset: Position { x: 0, y: 0 },
            lines: match source {
                Some(text) => lines_of(text),
                None => Seq::empty(),
            },
            name: match source {
                Some(text) => Some(filename),
                None => None,
            },
            message: match source {
                Some(text) => "HELP: Ctrl-Q = quit | Ctrl-S = save"@,
                None => "ERR: Could not open file: "@ + filename,
            },
            message_time: now,
            size: size,
            prompt: None,
        }
    }
}

/// An editing session.
pub struct Editor {
    should_quit: bool,
    cursor_position: Position,
    offset: Position,
    document: Document,
    status_message: StatusMessage,
    size: Size,
    prompt: Option<String>,
}

impl View for Editor {
    type V = EditorView;

    /// The session as a value.
    closed spec fn view(&self) -> EditorView {
        EditorView {
            should_quit: self.should_quit,
            cursor: self.cursor_position,
            offset: self.offset,
            lines: self.document@,
            name: self.document.name(),
            message: self.status_message.text@,
            message_time: self.status_message.time,
            size: self.size,
            prompt: match self.prompt {
                Some(input) => Some(input@),
                None => None,
            },
        }
    }
}

impl Editor {
    /// The document is well formed and the cursor stands in it.
    pub closed spec fn wf(&self) -> bool {
        &&& self.document.wf()
        &&& self@.wf()
    }

    /// The session that starts on the file named `filename`, given what
    /// reading the file came to. Where the read failed, the session starts
    /// on an empty document without a name and says so in its message.
    pub fn default(
        filename: &str,
        source: Result<String, std::io::Error>,
        size: Size,
        now: u64,
    ) -> (editor: Editor)
        ensures
            editor.wf(),
            editor@.in_view(),
            editor@ == EditorView::started(
                filename@,
                match source {
                    Ok(text) => Some(text@),
                    Err(error) => None,
                },
                size,
                now,
            ),
    {
        let mut status_message = "HELP: Ctrl-Q = quit | Ctrl-S = save".to_owned();
        let document = match Document::open(filename, source) {
            Ok(document) => document,
            Err(_) => {
                status_message = "ERR: Could not open file: ".to_owned();
                status_message.append(filename);
                Document::default()
            },
        };
        Editor {
            should_quit: false,
            cursor_position: Position::default(),
            offset: Position::default(),
            document,
            status_message: StatusMessage::from(status_message, now),
            size,
            prompt: None,
        }
    }

    /// Whether the user has asked to leave.
    pub fn should_quit(&self) -> (quit: bool)
        ensures
            quit == self@.should_quit,
    {
        self.should_quit
    }

    /// Where the cursor stands in the document.
    pub fn cursor_position(&self) -> (cursor: Position)
        ensures
            cursor == self@.cursor,
    {
        self.cursor_position
    }

    /// The place in the document that the top left corner of the window
    /// shows.
    pub fn offset(&self) -> (offset: Position)
        ensures
            offset == self@.offset,
    {
        self.offset
    }

    /// The document.
    pub fn document(&self) -> (document: &Document)
        ensures
            document@ == self@.lines,
            document.name() == self@.name,
            self.wf() ==> document.wf(),
    {
        &self.document
    }

    /// The message for the user.
    pub fn status_message(&self) -> (message: &StatusMessage)
        ensures
            message.text@ == self@.message,
            message.time == self@.message_time,
    {
        &self.status_message
    }

    /// Whether the session asks the user for a file name.
    pub fn prompting(&self) -> (asking: bool)
        ensures
            asking == (self@.prompt is Some),
    {
        self.prompt.is_some()
    }

    /// The size of the window.
    pub fn size(&self) -> (size: Size)
        ensures
            size == self@.size,
    {
        self.size
    }

    /// The number of clusters of line `y`; 0 where there is no such line.
    fn width_of(&self, y: usize) -> (width: usize)
        requires
            self.document.wf(),
        ensures
            width == line_len(self@.lines, y as int),
    {
        match self.document.row(y) {
            Some(row) => row.len(),
            None => 0,
        }
    }

    /// Moves the cursor back to the end of its line where it stands behind
    /// it, and then has the window show the line from its start.
    fn hold(&mut self)
        requires
            old(self).document.wf(),
            old(self)@.cursor.y <= old(self)@.lines.len(),
        ensures
            final(self).wf(),
            final(self)@ == old(self)@.held(),
    {
        let width = self.width_of(self.cursor_position.y);
        if width < self.cursor_position.x {
            self.cursor_position.x = width;
            self.offset.x = 0;
        }
    }

    /// Moves the cursor as `key` asks; the window stays.
    fn move_cursor(&mut self, key: Key)
        requires
            old(self).document.wf(),
            old(self)@.cursor.y <= old(self)@.lines.len(),
        ensures
            final(self).wf(),
            final(self)@ == old(self)@.cursor_moved(key),
    {
        let Position { mut x, mut y } = self.cursor_position;
        let width = self.width_of(y);
        let height = self.document.len();
        let page = self.size.height as usize;
        match key {
            Key::Left => {
                if x == 0 && y != 0 {
                    y = y - 1;
                    x = self.width_of(y);
                } else {
                    x = x.saturating_sub(1);
                }
            },
            Key::Right => {
                if x < width {
                    x = x + 1;
                } else if y < height {
                    y = y + 1;
                    x = 0;
                }
            },
            Key::Down => {
                if y < height {
                    y = y + 1;
                }
            },
            Key::PageDown => {
                if height - y > page {
                    y = y + page;
                } else {
                    y = height;
                }
            },
            Key::Up => {
                y = y.saturating_sub(1);
            },
            Key::PageUp => {
                y = y.saturating_sub(page);
            },
            _ => (),
        }
        self.cursor_position = Position { x, y };
        self.hold();
    }

    /// Has the window follow the cursor: where the cursor stands outside
    /// the window, the window moves just far enough to show it at its
    /// nearest edge.
    pub fn scroll(&mut self)
        requires
            old(self).wf(),
        ensures
            final(self).wf(),
            final(self)@ == old(self)@.scrolled(),
            final(self)@.in_view(),
    {
        proof {
            lemma_scroll_shows_cursor(self@);
        }
        let Position { x, y } = self.cursor_position;
        let width = self.size.width as usize;
        let height = self.size.height as usize;
        self.offset = Position {
            x: scroll_axis(self.offset.x, x, width),
            y: scroll_axis(self.offset.y, y, height),
        };
    }

    /// Moves the cursor as `key` asks, and has the window follow it. Left
    /// at the start of a line goes to the end of the line above, right at
    /// the end of a line to the start of the line below. Up and down go
    /// one line, page up and page down as many lines as the window has;
    /// none of them leaves the document, and the cursor may stand one line
    /// past the last. A cursor that comes to stand behind the end of its
    /// line moves back to that end. Other keys move nothing.
    pub fn cursor_move(&mut self, key: Key)
        requires
            old(self).wf(),
        ensures
            final(self).wf(),
            final(self)@ == old(self)@.cursor_moved(key).scrolled(),
            final(self)@.in_view(),
    {
        self.move_cursor(key);
        self.scroll();
    }

    /// Sets the message for the user.
    fn say(&mut self, text: String, now: u64)
        requires
            old(self).wf(),
        ensures
            final(self).wf(),
            final(self)@ == old(self)@.with_message(text@, now),
    {
        self.status_message = StatusMessage::from(text, now);
    }

    /// Goes on asking for a file name, of which `input` is typed so far.
    fn ask(&mut self, input: String, now: u64)
        requires
            old(self).wf(),
        ensures
            final(self).wf(),
            final(self)@ == old(self)@.asking(input@, now),
    {
        let mut text = "Save as: ".to_owned();
        text.append(input.as_str());
        self.prompt = Some(input);
        self.say(text, now);
    }

    /// Ends the asking for a file name with `answer`.
    fn answer(&mut self, answer: String, now: u64) -> (action: Action)
        requires
            old(self).wf(),
        ensures
            final(self).wf(),
            final(self)@ == old(self)@.answered(answer@, now),
            action == if answer@.len() > 0 {
                Action::Save
            } else {
                Action::Continue
            },
    {
        self.prompt = None;
        if answer.as_str().is_empty() {
            self.say("Save aborted".to_owned(), now);
            self.scroll();
            Action::Continue
        } else {
            self.document.set_filename(Some(answer));
            self.say(String::new(), now);
            Action::Save
        }
    }

    /// Takes a key stroke while the session asks for a file name.
    fn prompt(&mut self, key: Key, now: u64) -> (action: Action)
        requires
            old(self).wf(),
            old(self)@.prompt is Some,
        ensures
            final(self).wf(),
            final(self)@ == old(self)@.prompted(key, now),
            action == if old(self)@.saves(key) {
                Action::Save
            } else {
                Action::Continue
            },
    {
        let mut input = match self.prompt.take() {
            Some(input) => input,
            None => String::new(),
        };
        match key {
            Key::Backspace => {
                let _ = input.pop();
                self.ask(input, now);
                Action::Continue
            },
            Key::Char(c) => {
                if c == '\n' {
                    self.answer(input, now)
                } else {
                    if !c.is_control() {
                        input.push(c);
                    }
                    self.ask(input, now);
                    Action::Continue
                }
            },
            Key::Esc => self.answer(String::new(), now),
            _ => {
                self.ask(input, now);
                Action::Continue
            },
        }
    }

    /// Begins saving: a document that has a name is to be written, and for
    /// one that has none the session asks for a name first.
    fn save(&mut self, now: u64) -> (action: Action)
        requires
            old(self).wf(),
            old(self)@.prompt is None,
        ensures
            final(self).wf(),
            final(self)@ == old(self)@.edited(Key::Ctrl('s'), now),
            action == if old(self)@.name is Some {
                Action::Save
            } else {
                Action::Continue
            },
    {
        if self.document.filename().is_none() {
            self.ask(String::new(), now);
            Action::Continue
        } else {
            Action::Save
        }
    }

    /// Takes what the writing of the document came to, and tells the user.
    pub fn saved(&mut self, written: bool, now: u64)
        requires
            old(self).wf(),
        ensures
            final(self).wf(),
            final(self)@ == old(self)@.saved(written, now),
            final(self)@.in_view(),
    {
        if written {
            self.say("File saved successfully.".to_owned(), now);
        } else {
            self.say("Error writing file!".to_owned(), now);
        }
        self.scroll();
    }

    /// Types `c` at the cursor, and moves the cursor behind it.
    fn type_char(&mut self, c: char)
        requires
            old(self).wf(),
        ensures
            final(self).wf(),
            final(self)@ == old(self)@.typed(c),
    {
        let at = self.cursor_position;
        self.document.insert(&at, c);
        self.move_cursor(Key::Right);
    }

    /// Deletes what stands in front of the cursor.
    fn erase(&mut self)
        requires
            old(self).wf(),
        ensures
            final(self).wf(),
            final(self)@ == old(self)@.erased(),
    {
        if self.cursor_position.x > 0 || self.cursor_position.y > 0 {
            self.move_cursor(Key::Left);
            let at = self.cursor_position;
            self.document.delete(&at);
            self.hold();
        }
    }

    /// Takes the news that reading a key or drawing the screen has failed.
    /// While the session asks for a file name, that calls the saving off,
    /// as escape does, and the session goes on; else it cannot go on. The
    /// result says whether it goes on.
    pub fn failed(&mut self, now: u64) -> (goes_on: bool)
        requires
            old(self).wf(),
        ensures
            final(self).wf(),
            goes_on == (old(self)@.prompt is Some),
            goes_on ==> final(self)@ == old(self)@.prompted(Key::Esc, now),
            !goes_on ==> final(self)@ == old(self)@,
            old(self)@.in_view() ==> final(self)@.in_view(),
    {
        if self.prompt.is_some() {
            let _ = self.prompt(Key::Esc, now);
            true
        } else {
            false
        }
    }

    /// Takes a key stroke. While the session asks for a file name, the key
    /// goes to the answer. Else control-C asks to leave, control-S begins
    /// saving, a character is typed at the cursor, backspace and delete
    /// take away what stands in front of the cursor, and the arrow and
    /// page keys move the cursor; then the window follows the cursor. The
    /// result says whether the document is now to be written.
    pub fn process_keypress(&mut self, key: Key, now: u64) -> (action: Action)
        requires
            old(self).wf(),
        ensures
            final(self).wf(),
            final(self)@ == old(self)@.keyed(key, now),
            action == if old(self)@.saves(key) {
                Action::Save
            } else {
                Action::Continue
            },
            old(self)@.in_view() ==> final(self)@.in_view(),
    {
        if self.prompt.is_some() {
            return self.prompt(key, now);
        }
        match key {
            Key::Ctrl(c) => {
                if c == 'c' {
                    self.should_quit = true;
                } else if c == 's' {
                    return self.save(now);
                }
            },
            Key::Char(c) => {
                self.type_char(c);
            },
            Key::Left | Key::Right | Key::Up | Key::PageUp | Key::Down | Key::PageDown => {
                self.move_cursor(key);
            },
            Key::Delete | Key::Backspace => {
                self.erase();
            },
            _ => (),
        }
        self.scroll();
        Action::Continue
    }

    /// The line that greets the user of the editor in version `version`.
    pub fn draw_welcome_msg(&self, version: &str) -> (line: String)
        ensures
            line@ == self@.welcome_line(version@),
    {
        let mut welcome_msg = "Hecto editor -- version ".to_owned();
        welcome_msg.append(version);
        welcome_msg.push('\r');
        let width = self.size.width as usize;
        let len = welcome_msg.as_str().as_bytes().len();
        let padding = width.saturating_sub(len) / 2;
        let mut line = "~".to_owned();
        proof {
            reveal_strlit("~");
            assert("~"@ =~= seq!['~']);
        }
        line.append(spaces(padding.saturating_sub(1)).as_str());
        line.append(truncate(welcome_msg.as_str(), width));
        proof {
            let message = "Hecto editor -- version "@ + version@ + seq!['\r'];
            assert(welcome_msg@ =~= message);
            assert(blank(padding.saturating_sub(1) as int) =~= blank(padding - 1));
        }
        line
    }

    /// The part of `row` that is in the window.
    pub fn draw_row(&self, row: &Row) -> (line: String)
        requires
            row.wf(),
        ensures
            line@ == rendered(
                row@,
                self@.offset.x as int,
                self@.offset.x + self@.size.width,
            ),
    {
        let start = self.offset.x;
        let end = self.offset.x.saturating_add(self.size.width as usize);
        row.render(start, end)
    }

    /// What the rows of the screen show, from the top.
    pub fn draw_rows(&self, version: &str) -> (rows: Vec<String>)
        requires
            self.wf(),
        ensures
            rows@.len() == self@.size.height,
            forall|line: int|
                0 <= line < rows@.len() ==> (#[trigger] rows@[line])@ == self@.screen_line(
                    line,
                    version@,
                ),
    {
        let height = self.size.height;
        let mut rows: Vec<String> = Vec::new();
        let mut line: u16 = 0;
        while line < height
            invariant
                self.wf(),
                height == self@.size.height,
                line <= height,
                rows@.len() == line,
                forall|i: int|
                    0 <= i < rows@.len() ==> (#[trigger] rows@[i])@ == self@.screen_line(
                        i,
                        version@,
                    ),
            decreases height - line,
        {
            proof {
                self.document.lemma_len_fits();
            }
            let text = match self.document.row((line as usize).saturating_add(self.offset.y)) {
                Some(row) => self.draw_row(row),
                None => {
                    if self.document.is_empty() && line == height / 3 {
                        self.draw_welcome_msg(version)
                    } else {
                        "~".to_owned()
                    }
                },
            };
            let ghost before = rows@;
            rows.push(text);
            assert forall|i: int| 0 <= i < rows@.len() implies (#[trigger] rows@[i])@
                == self@.screen_line(i, version@) by {
                if i < before.len() {
                    assert(rows@[i] == before[i]);
                }
            }
            line += 1;
        }
        rows
    }

    /// The status bar.
    pub fn draw_status_bar(&self) -> (status: String)
        requires
            self.wf(),
        ensures
            status@ == self@.status_line(),
    {
        let width = self.size.width as usize;
        let mut status = match self.document.filename() {
            Some(name) => truncate(name.as_str(), 20).to_owned(),
            None => "No Name".to_owned(),
        };
        status.append(" - ");
        status.append(decimal(self.document.len() as u128).as_str());
        status.append(" lines");
        let mut line_indicator = decimal(self.cursor_position.y as u128 + 1);
        line_indicator.append("/");
        line_indicator.append(decimal(self.document.len() as u128).as_str());
        let taken = status.as_str().as_bytes().len();
        let wanted = line_indicator.as_str().as_bytes().len();
        if taken < width && wanted < width - taken {
            status.append(spaces(width - taken - wanted).as_str());
        } else {
            assert(blank(width - (taken + wanted)) =~= Seq::<char>::empty());
        }
        status.append(line_indicator.as_str());
        status
    }

    /// The message bar at the time `now`.
    pub fn draw_message_bar(&self, now: u64) -> (bar: String)
        ensures
            bar@ == self@.message_line(now),
    {
        let message = &self.status_message;
        if now.saturating_sub(message.time) < MESSAGE_TIME {
            truncate(message.text.as_str(), self.size.width as usize).to_owned()
        } else {
            String::new()
        }
    }

    /// What the screen is to show at the time `now`; nothing of the
    /// document once the user has asked to leave.
    pub fn refresh_screen(&self, version: &str, now: u64) -> (frame: Option<Frame>)
        requires
            self.wf(),
        ensures
            self@.should_quit ==> frame is None,
            !self@.should_quit ==> (frame matches Some(shown) && shown.rows@.len()
                == self@.size.height && (forall|line: int|
                0 <= line < shown.rows@.len() ==> (#[trigger] shown.rows@[line])@
                    == self@.screen_line(line, version@)) && shown.status_bar@
                == self@.status_line() && shown.message_bar@ == self@.message_line(now)
                && shown.cursor == self@.cursor_on_screen()),
    {
        if self.should_quit {
            None
        } else {
            Some(
                Frame {
                    rows: self.draw_rows(version),
                    status_bar: self.draw_status_bar(),
                    message_bar: self.draw_message_bar(now),
                    cursor: Position {
                        x: self.cursor_position.x.saturating_sub(self.offset.x),
                        y: self.cursor_position.y.saturating_sub(self.offset.y),
                    },
                },
            )
        }
    }
}

/// Having the window follow the cursor a second time, while the cursor
/// stays, changes nothing, provided that the window has room for the
/// cursor: a window without columns or without rows goes back and forth.
pub proof fn lemma_scroll_twice(session: EditorView)
    requires
        session.size.width > 0,
        session.size.height > 0,
    ensures
        session.scrolled().scrolled() == session.scrolled(),
{
    lemma_followed_twice(session.offset, session.cursor, session.size);
}

/// After the window has followed the cursor it shows the cursor, along
/// each axis on which it has room.
pub proof fn lemma_scroll_shows_cursor(session: EditorView)
    ensures
        session.scrolled().in_view(),
{
    if session.size.width > 0 {
        lemma_scrolled_shows(
            session.offset.x as int,
            session.cursor.x as int,
            session.size.width as int,
        );
    }
    if session.size.height > 0 {
        lemma_scrolled_shows(
            session.offset.y as int,
            session.cursor.y as int,
            session.size.height as int,
        );
    }
}

/// A cursor at the start of a line, moved left, stands at the end of the
/// line above, and moved right from there stands where it was.
pub proof fn lemma_left_then_right(session: EditorView)
    requires
        session.wf(),
        session.cursor.x == 0,
        session.cursor.y > 0,
        line_len(session.lines, session.cursor.y - 1) <= usize::MAX,
    ensures
        session.cursor_moved(Key::Left).cursor == (Position {
            x: line_len(session.lines, session.cursor.y - 1) as usize,
            y: (session.cursor.y - 1) as usize,
        }),
        session.cursor_moved(Key::Left).cursor_moved(Key::Right).cursor == session.cursor,
{
    lemma_wrap_symmetry(session.lines, session.cursor.y, session.size.height as int);
}

} // verus!
