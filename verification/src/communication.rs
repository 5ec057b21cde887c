//! The messages and deferred commands that the editor and its components
//! exchange. A `Message` is the sole inter-component communication unit; a
//! `Command` is a deferred unit of work that the event loop executes off
//! the synchronous update path.

use crate::mode::{Mode, ModeV};
use vstd::prelude::*;

verus! {

/// `Message` captures all state transitions that the editor and its
/// components understand.
#[derive(Debug, Clone, PartialEq, Eq)]
pub enum Message {
    AbortCommandLineInput,
    EndCommandLineInput,
    ParseCommandLineInput(String),
    EnterMode(Mode),
    InsertChar(char),
    InsertLineBreak,
    DeleteCharForward,
    DeleteCharBackward,
    MoveCursorUp(usize),
    MoveCursorDown(usize),
    MoveCursorLeft(usize),
    MoveCursorRight(usize),
    MoveCursorLineStart,
    MoveCursorLineEnd,
    MoveCursorPageUp,
    MoveCursorPageDown,
    Save,
    SaveAs(String),
    Quit,
}

/// The abstract form of a `Message`: strings are their character
/// sequences, modes their abstract state.
pub enum MessageV {
    AbortCommandLineInput,
    EndCommandLineInput,
    ParseCommandLineInput(Seq<char>),
    EnterMode(ModeV),
    InsertChar(char),
    InsertLineBreak,
    DeleteCharForward,
    DeleteCharBackward,
    MoveCursorUp(usize),
    MoveCursorDown(usize),
    MoveCursorLeft(usize),
    MoveCursorRight(usize),
    MoveCursorLineStart,
    MoveCursorLineEnd,
    MoveCursorPageUp,
    MoveCursorPageDown,
    Save,
    SaveAs(Seq<char>),
    Quit,
}

impl View for Message {
    type V = MessageV;

    open spec fn view(&self) -> MessageV {
        match self {
            Message::AbortCommandLineInput => MessageV::AbortCommandLineInput,
            Message::EndCommandLineInput => MessageV::EndCommandLineInput,
            Message::ParseCommandLineInput(s) => MessageV::ParseCommandLineInput(s@),
            Message::EnterMode(m) => MessageV::EnterMode(m@),
            Message::InsertChar(ch) => MessageV::InsertChar(*ch),
            Message::InsertLineBreak => MessageV::InsertLineBreak,
            Message::DeleteCharForward => MessageV::DeleteCharForward,
            Message::DeleteCharBackward => MessageV::DeleteCharBackward,
            Message::MoveCursorUp(n) => MessageV::MoveCursorUp(*n),
            Message::MoveCursorDown(n) => MessageV::MoveCursorDown(*n),
            Message::MoveCursorLeft(n) => MessageV::MoveCursorLeft(*n),
            Message::MoveCursorRight(n) => MessageV::MoveCursorRight(*n),
            Message::MoveCursorLineStart => MessageV::MoveCursorLineStart,
            Message::MoveCursorLineEnd => MessageV::MoveCursorLineEnd,
            Message::MoveCursorPageUp => MessageV::MoveCursorPageUp,
            Message::MoveCursorPageDown => MessageV::MoveCursorPageDown,
            Message::Save => MessageV::Save,
            Message::SaveAs(s) => MessageV::SaveAs(s@),
            Message::Quit => MessageV::Quit,
        }
    }
}

/// The view of an optional message, used by contracts that speak of a
/// parser's or a key handler's result.
pub open spec fn opt_msg_view(r: Option<Message>) -> Option<MessageV> {
    match r {
        Some(m) => Some(m@),
        None => None,
    }
}

/// `Command` is a deferred unit of work that, when executed off the
/// synchronous update path, either re-enters a message into the loop or
/// writes a file out. The set of deferred operations the editor needs is
/// closed, so each is a variant carrying its own data.
#[derive(Debug)]
pub enum Command {
    /// Produce the carried message.
    Emit(Message),
    /// Write the carried bytes to the named file.
    WriteFile { name: String, contents: Vec<u8> },
}

/// The abstract form of a `Command`.
pub enum CommandV {
    Emit(MessageV),
    WriteFile { name: Seq<char>, contents: Seq<u8> },
}

impl View for Command {
    type V = CommandV;

    open spec fn view(&self) -> CommandV {
        match self {
            Command::Emit(m) => CommandV::Emit(m@),
            Command::WriteFile { name, contents } => CommandV::WriteFile {
                name: name@,
                contents: contents@,
            },
        }
    }
}

/// The view of an optional command, used by the component update
/// contracts.
pub open spec fn opt_cmd_view(r: Option<Command>) -> Option<CommandV> {
    match r {
        Some(c) => Some(c@),
        None => None,
    }
}

/// Wrap a message as the command that produces exactly that message.
pub fn wrap(msg: Message) -> (r: Command)
    ensures
        r@ == CommandV::Emit(msg@),
{
    Command::Emit(msg)
}

} // verus!
