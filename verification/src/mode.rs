//! The modal input state machine: `Normal`, `Insert` and `Execute` modes,
//! each mapping key presses to messages. `Normal` accumulates pending key
//! characters until a grammar rule matches or `Esc` clears them; `Execute`
//! owns its own single-line buffer, edited like ordinary text and parsed
//! as a command when finished.

use crate::communication::{opt_msg_view, Message, MessageV};
use crate::input::Key;
use crate::row::{push_char, Row};
use crate::ui::Position;
use vstd::prelude::*;

verus! {

/// The abstract state of `Execute` mode: its command line and cursor.
pub struct ExecuteV {
    pub line: Seq<Seq<char>>,
    pub cursor_position: Position,
}

/// The abstract state of a `Mode`.
pub enum ModeV {
    Execute(ExecuteV),
    Insert,
    Normal(Seq<char>),
}

/// The current interpretation context for key input.
#[derive(Debug, PartialEq, Eq)]
pub enum Mode {
    Execute(Execute),
    Insert(Insert),
    Normal(Normal),
}

impl View for Mode {
    type V = ModeV;

    open spec fn view(&self) -> ModeV {
        match self {
            Mode::Execute(e) => ModeV::Execute(e@),
            Mode::Insert(_) => ModeV::Insert,
            Mode::Normal(n) => ModeV::Normal(n@),
        }
    }
}

/// The display name of a mode, shown in the status bar.
pub open spec fn mode_name(m: ModeV) -> Seq<char> {
    match m {
        ModeV::Execute(_) => "COMMAND"@,
        ModeV::Insert => "INSERT"@,
        ModeV::Normal(_) => "NORMAL"@,
    }
}

impl Mode {
    /// The display name of the mode, shown in the status bar.
    pub fn name(&self) -> (r: &'static str)
        ensures
            r@ == mode_name(self@),
    {
        match self {
            Mode::Execute(_) => "COMMAND",
            Mode::Insert(_) => "INSERT",
            Mode::Normal(_) => "NORMAL",
        }
    }
}

impl Clone for Mode {
    fn clone(&self) -> (r: Self)
        ensures
            r@ == self@,
    {
        match self {
            Mode::Execute(e) => Mode::Execute(e.clone()),
            Mode::Insert(_) => Mode::Insert(Insert),
            Mode::Normal(n) => Mode::Normal(n.clone()),
        }
    }
}

impl Default for Mode {
    /// The initial mode: `Normal` with no pending input.
    fn default() -> (r: Self)
        ensures
            r@ == ModeV::Normal(Seq::<char>::empty()),
    {
        Mode::Normal(Normal::default())
    }
}

/// `Execute` mode: the command line is being edited.
#[derive(Debug, PartialEq, Eq)]
pub struct Execute {
    row: Row,
    cursor_position: Position,
}

impl View for Execute {
    type V = ExecuteV;

    closed spec fn view(&self) -> ExecuteV {
        ExecuteV { line: self.row@, cursor_position: self.cursor_position }
    }
}

impl Clone for Execute {
    fn clone(&self) -> (r: Self)
        ensures
            r@ == self@,
    {
        Execute { row: self.row.clone(), cursor_position: self.cursor_position }
    }
}

impl Default for Execute {
    fn default() -> (r: Self)
        ensures
            r@.line == Seq::<Seq<char>>::empty(),
            r@.cursor_position == (Position { col: 0, row: 0 }),
    {
        Execute { row: Row::default(), cursor_position: Position::default() }
    }
}

/// What a key press means while the command line is being edited.
pub open spec fn execute_handle(key: Key) -> Option<MessageV> {
    match key {
        Key::Enter => Some(MessageV::EndCommandLineInput),
        Key::Char(ch) => Some(MessageV::InsertChar(ch)),
        Key::Left => Some(MessageV::MoveCursorLeft(1)),
        Key::Right => Some(MessageV::MoveCursorRight(1)),
        Key::Backspace => Some(MessageV::DeleteCharBackward),
        Key::Delete => Some(MessageV::DeleteCharForward),
        Key::Home => Some(MessageV::MoveCursorLineStart),
        Key::End => Some(MessageV::MoveCursorLineEnd),
        Key::Esc => Some(MessageV::AbortCommandLineInput),
        _ => None,
    }
}

impl Execute {
    /// Map a key press to the message that edits or finishes the command
    /// line.
    pub fn handle(&self, key: Key) -> (r: Option<Message>)
        ensures
            opt_msg_view(r) == execute_handle(key),
    {
        match key {
            Key::Enter => Some(Message::EndCommandLineInput),
            Key::Char(ch) => Some(Message::InsertChar(ch)),
            Key::Left => Some(Message::MoveCursorLeft(1)),
            Key::Right => Some(Message::MoveCursorRight(1)),
            Key::Backspace => Some(Message::DeleteCharBackward),
            Key::Delete => Some(Message::DeleteCharForward),
            Key::Home => Some(Message::MoveCursorLineStart),
            Key::End => Some(Message::MoveCursorLineEnd),
            Key::Esc => Some(Message::AbortCommandLineInput),
            _ => None,
        }
    }

    /// Parse a finished command line: `q` quits, `w` saves, `w <name>`
    /// saves under the given name; anything else produces no message.
    pub fn parse(&self, command_string: &str) -> (r: Option<Message>)
        ensures
            opt_msg_view(r) == crate::execute::execute_command(command_string@),
    {
        crate::execute::command_for_input(command_string)
    }
}

/// `Insert` mode: typed characters enter the document.
#[derive(Debug, Clone, Copy, PartialEq, Eq, Structural)]
pub struct Insert;

impl Default for Insert {
    fn default() -> (r: Self)
        ensures
            r == Insert,
    {
        Insert
    }
}

/// What a key press means in `Insert` mode.
pub open spec fn insert_handle(key: Key) -> Option<MessageV> {
    match key {
        Key::Up => Some(MessageV::MoveCursorUp(1)),
        Key::Down => Some(MessageV::MoveCursorDown(1)),
        Key::Left => Some(MessageV::MoveCursorLeft(1)),
        Key::Right => Some(MessageV::MoveCursorRight(1)),
        Key::Home => Some(MessageV::MoveCursorLineStart),
        Key::End => Some(MessageV::MoveCursorLineEnd),
        Key::PageUp => Some(MessageV::MoveCursorPageUp),
        Key::PageDown => Some(MessageV::MoveCursorPageDown),
        Key::Delete => Some(MessageV::DeleteCharForward),
        Key::Backspace => Some(MessageV::DeleteCharBackward),
        Key::Enter => Some(MessageV::InsertLineBreak),
        Key::Char(ch) => Some(MessageV::InsertChar(ch)),
        Key::Esc => Some(MessageV::EnterMode(ModeV::Normal(Seq::empty()))),
        _ => None,
    }
}

impl Insert {
    /// Map a key press to its message: a direct one-to-one mapping.
    pub fn handle(&self, key: Key) -> (r: Option<Message>)
        ensures
            opt_msg_view(r) == insert_handle(key),
    {
        match key {
            Key::Up => Some(Message::MoveCursorUp(1)),
            Key::Down => Some(Message::MoveCursorDown(1)),
            Key::Left => Some(Message::MoveCursorLeft(1)),
            Key::Right => Some(Message::MoveCursorRight(1)),
            Key::Home => Some(Message::MoveCursorLineStart),
            Key::End => Some(Message::MoveCursorLineEnd),
            Key::PageUp => Some(Message::MoveCursorPageUp),
            Key::PageDown => Some(Message::MoveCursorPageDown),
            Key::Delete => Some(Message::DeleteCharForward),
            Key::Backspace => Some(Message::DeleteCharBackward),
            Key::Enter => Some(Message::InsertLineBreak),
            Key::Char(ch) => Some(Message::InsertChar(ch)),
            Key::Esc => Some(Message::EnterMode(Mode::Normal(Normal::default()))),
            _ => None,
        }
    }
}

/// `Normal` mode: keys accumulate until a grammar rule matches.
#[derive(Debug, PartialEq, Eq)]
pub struct Normal {
    input_buffer: String,
}

impl View for Normal {
    type V = Seq<char>;

    closed spec fn view(&self) -> Seq<char> {
        self.input_buffer@
    }
}

impl Clone for Normal {
    fn clone(&self) -> (r: Self)
        ensures
            r@ == self@,
    {
        Normal { input_buffer: self.input_buffer.clone() }
    }
}

impl Default for Normal {
    fn default() -> (r: Self)
        ensures
            r@ == Seq::<char>::empty(),
    {
        Normal { input_buffer: String::new() }
    }
}

/// The single keys that map directly to a message in `Normal` mode,
/// short-circuiting the grammar.
pub open spec fn normal_direct(key: Key) -> Option<MessageV> {
    match key {
        Key::Home => Some(MessageV::MoveCursorLineStart),
        Key::End => Some(MessageV::MoveCursorLineEnd),
        Key::PageUp => Some(MessageV::MoveCursorPageUp),
        Key::PageDown => Some(MessageV::MoveCursorPageDown),
        Key::Insert => Some(MessageV::EnterMode(ModeV::Insert)),
        Key::Enter => Some(MessageV::MoveCursorDown(1)),
        _ => None,
    }
}

/// One key press in `Normal` mode: the pending input after the press and
/// the message it produces, if any. A printable character joins the
/// pending input and `Esc` clears it; a direct key short-circuits the
/// grammar; otherwise the pending input is matched against the grammar and
/// cleared exactly when a rule matches.
pub open spec fn normal_step(pending: Seq<char>, key: Key) -> (Seq<char>, Option<MessageV>) {
    let accumulated = match key {
        Key::Char(ch) => pending.push(ch),
        Key::Esc => Seq::empty(),
        _ => pending,
    };
    match normal_direct(key) {
        Some(m) => (accumulated, Some(m)),
        None => match crate::normal::normal_command(accumulated) {
            Some(m) => (Seq::empty(), Some(m)),
            None => (accumulated, None),
        },
    }
}

impl Normal {
    /// Handle one key press, accumulating pending input and producing the
    /// message of the first grammar rule it completes, if any.
    pub fn handle(&mut self, key: Key) -> (r: Option<Message>)
        ensures
            final(self)@ == normal_step(old(self)@, key).0,
            opt_msg_view(r) == normal_step(old(self)@, key).1,
    {
        match key {
            Key::Char(ch) => push_char(&mut self.input_buffer, ch),
            Key::Esc => {
                self.input_buffer = String::new();
            },
            _ => {},
        }

        let direct = match key {
            Key::Home => Some(Message::MoveCursorLineStart),
            Key::End => Some(Message::MoveCursorLineEnd),
            Key::PageUp => Some(Message::MoveCursorPageUp),
            Key::PageDown => Some(Message::MoveCursorPageDown),
            Key::Insert => Some(Message::EnterMode(Mode::Insert(Insert::default()))),
            Key::Enter => Some(Message::MoveCursorDown(1)),
            _ => None,
        };
        if direct.is_some() {
            return direct;
        }

        match crate::normal::command_for_input(self.input_buffer.as_str()) {
            Some(m) => {
                self.input_buffer = String::new();
                Some(m)
            },
            None => None,
        }
    }
}

} // verus!
