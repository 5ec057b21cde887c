//! A single-line text input with a prompt and a placeholder, used for the
//! command line. While focused it owns the frame's cursor.

use crate::communication::{opt_cmd_view, Command, CommandV, Message, MessageV};
use crate::mode::{Mode, ModeV, Normal};
use crate::render::{char_symbols, clip, frame_write, Draw, Frame, FrameV};
use crate::row::{lemma_views_subrange, row_delete, row_insert, snippet_of, Row};
use crate::ui::{sat_add, sat_sub, Color, Position};
use vstd::prelude::*;
use vstd::string::StrSliceExecFns;

verus! {

/// The abstract state of a `TextInput`.
pub struct TextInputV {
    pub cursor_position: int,
    pub focused: bool,
    pub place_holder: Seq<char>,
    pub position: Position,
    pub prompt: Seq<char>,
    pub value: Seq<Seq<char>>,
}

pub struct TextInput {
    cursor_position: usize,
    focused: bool,
    place_holder: String,
    position: Position,
    prompt: String,
    value: Row,
}

impl View for TextInput {
    type V = TextInputV;

    closed spec fn view(&self) -> TextInputV {
        TextInputV {
            cursor_position: self.cursor_position as int,
            focused: self.focused,
            place_holder: self.place_holder@,
            position: self.position,
            prompt: self.prompt@,
            value: self.value@,
        }
    }
}

/// The input after its value and cursor were cleared.
pub open spec fn input_reset(t: TextInputV) -> TextInputV {
    TextInputV { cursor_position: 0, value: Seq::empty(), ..t }
}

/// One message applied to a text input: the new state and the command it
/// defers, if any. Finishing the line defers its parsing; aborting, or
/// deleting the line down to at most one cluster, clears the input and
/// returns to `Normal` mode.
pub open spec fn text_input_step(t: TextInputV, m: MessageV) -> (TextInputV, Option<CommandV>) {
    match m {
        MessageV::InsertChar(ch) => (
            TextInputV {
                value: row_insert(t.value, t.cursor_position, ch),
                cursor_position: sat_add(t.cursor_position, 1),
                ..t
            },
            None,
        ),
        MessageV::EndCommandLineInput => (
            input_reset(t),
            Some(
                CommandV::Emit(
                    MessageV::ParseCommandLineInput(
                        snippet_of(t.value, 0, t.value.len() as int).flatten(),
                    ),
                ),
            ),
        ),
        MessageV::AbortCommandLineInput => (
            input_reset(t),
            Some(CommandV::Emit(MessageV::EnterMode(ModeV::Normal(Seq::empty())))),
        ),
        MessageV::MoveCursorLeft(n) => (
            if t.cursor_position > 1 {
                TextInputV { cursor_position: sat_sub(t.cursor_position, n as int), ..t }
            } else {
                t
            },
            None,
        ),
        MessageV::MoveCursorRight(n) => (
            if t.cursor_position != t.value.len() {
                TextInputV { cursor_position: sat_add(t.cursor_position, n as int), ..t }
            } else {
                t
            },
            None,
        ),
        MessageV::MoveCursorLineStart => (TextInputV { cursor_position: 1, ..t }, None),
        MessageV::MoveCursorLineEnd => (
            TextInputV { cursor_position: t.value.len() as int, ..t },
            None,
        ),
        MessageV::DeleteCharForward => {
            let t2 = TextInputV { value: row_delete(t.value, t.cursor_position), ..t };
            if t2.value.len() <= 1 {
                (
                    input_reset(t2),
                    Some(CommandV::Emit(MessageV::EnterMode(ModeV::Normal(Seq::empty())))),
                )
            } else {
                (t2, None)
            }
        },
        MessageV::DeleteCharBackward => {
            let c2 = sat_sub(t.cursor_position, 1);
            let t2 = TextInputV {
                cursor_position: c2,
                value: row_delete(t.value, c2),
                ..t
            };
            if t2.value.len() <= 1 {
                (
                    input_reset(t2),
                    Some(CommandV::Emit(MessageV::EnterMode(ModeV::Normal(Seq::empty())))),
                )
            } else {
                (t2, None)
            }
        },
        _ => (t, None),
    }
}

impl TextInput {
    /// A fresh input with the given prompt and placeholder at the given
    /// position, unfocused and empty.
    pub fn new(prompt: &str, place_holder: &str, position: Position) -> (r: Self)
        ensures
            r@ == (TextInputV {
                cursor_position: 0,
                focused: false,
                place_holder: place_holder@,
                position,
                prompt: prompt@,
                value: Seq::empty(),
            }),
    {
        Self {
            cursor_position: 0,
            focused: false,
            place_holder: String::from_str(place_holder),
            position,
            prompt: String::from_str(prompt),
            value: Row::default(),
        }
    }

    /// When the `TextInput` is focused it will update the cursor position
    /// of the `Frame` to wherever the cursor should be in the `TextInput`.
    pub fn focus(&mut self)
        ensures
            final(self)@ == (TextInputV { focused: true, ..old(self)@ }),
    {
        self.focused = true;
    }

    /// When the `TextInput` is unfocused it will not update the cursor
    /// position of the `Frame`.
    pub fn unfocus(&mut self)
        ensures
            final(self)@ == (TextInputV { focused: false, ..old(self)@ }),
    {
        self.focused = false;
    }

    /// Clear the value and cursor.
    pub fn reset(&mut self)
        ensures
            final(self)@ == input_reset(old(self)@),
    {
        self.value = Row::default();
        self.cursor_position = 0;
    }

    /// Apply one message to the input.
    pub fn update(&mut self, msg: Message) -> (r: Result<
        Option<Command>,
        crate::document::OutOfRangeError,
    >)
        ensures
            r is Ok,
            final(self)@ == text_input_step(old(self)@, msg@).0,
            r matches Ok(cmd) && opt_cmd_view(cmd) == text_input_step(old(self)@, msg@).1,
    {
        Ok(
            match msg {
                Message::InsertChar(ch) => {
                    self.value.insert(self.cursor_position, ch);
                    self.cursor_position = self.cursor_position.saturating_add(1);
                    None
                },
                Message::EndCommandLineInput => {
                    let cmd = Some(
                        crate::communication::wrap(
                            Message::ParseCommandLineInput(self.value.contents()),
                        ),
                    );
                    self.reset();
                    cmd
                },
                Message::AbortCommandLineInput => {
                    self.reset();
                    Some(
                        crate::communication::wrap(
                            Message::EnterMode(Mode::Normal(Normal::default())),
                        ),
                    )
                },
                Message::MoveCursorLeft(n) => {
                    if self.cursor_position > 1 {
                        self.cursor_position = self.cursor_position.saturating_sub(n);
                    }
                    None
                },
                Message::MoveCursorRight(n) => {
                    if self.cursor_position != self.value.len() {
                        self.cursor_position = self.cursor_position.saturating_add(n);
                    }
                    None
                },
                Message::MoveCursorLineStart => {
                    self.cursor_position = 1;
                    None
                },
                Message::MoveCursorLineEnd => {
                    self.cursor_position = self.value.len();
                    None
                },
                Message::DeleteCharForward => {
                    self.value.delete(self.cursor_position);
                    if self.value.len() <= 1 {
                        self.reset();
                        return Ok(
                            Some(
                                crate::communication::wrap(
                                    Message::EnterMode(Mode::Normal(Normal::default())),
                                ),
                            ),
                        );
                    }
                    None
                },
                Message::DeleteCharBackward => {
                    self.cursor_position = self.cursor_position.saturating_sub(1);
                    self.value.delete(self.cursor_position);
                    if self.value.len() <= 1 {
                        self.reset();
                        return Ok(
                            Some(
                                crate::communication::wrap(
                                    Message::EnterMode(Mode::Normal(Normal::default())),
                                ),
                            ),
                        );
                    }
                    None
                },
                _ => None,
            },
        )
    }
}

/// The frame after the text input drew itself: an unfocused empty input
/// shows its placeholder; otherwise the prompt and the value are written,
/// and a focused input places the frame's cursor after its own.
pub open spec fn text_input_frame(t: TextInputV, f: FrameV) -> FrameV {
    if t.value.len() == 0 && t.place_holder.len() != 0 && !t.focused {
        frame_write(
            f,
            t.position.row as int,
            clip(t.place_holder.map_values(|c: char| seq![c]), f.area.width as int),
            Color::Reset,
            Color::Reset,
        )
    } else {
        let symbols = clip(
            t.prompt.map_values(|c: char| seq![c]) + snippet_of(t.value, 0, t.value.len() as int),
            f.area.width as int,
        );
        let f2 = frame_write(f, t.position.row as int, symbols, Color::Reset, Color::Reset);
        if t.focused {
            FrameV {
                cursor_position: Position {
                    col: sat_add(t.cursor_position, t.prompt.len() as int) as usize,
                    row: t.position.row,
                },
                ..f2
            }
        } else {
            f2
        }
    }
}

impl Draw for TextInput {
    /// The input draws on any frame tall enough to hold its row.
    open spec fn fits(&self, area: crate::ui::Rect) -> bool {
        self@.position.row < area.height
    }

    open spec fn renders(&self, before: FrameV, after: FrameV) -> bool {
        after == text_input_frame(self@, before)
    }

    fn render_to(&self, frame: &mut Frame) {
        let width = frame.area().width;

        if self.value.is_empty() && !self.place_holder.as_str().is_empty() && !self.focused {
            let mut symbols = char_symbols(self.place_holder.as_str());
            let ghost full = symbols.deep_view();
            let ghost pre = symbols@;
            symbols.truncate(width);
            proof {
                if width <= pre.len() {
                    lemma_views_subrange(pre, symbols@, 0, width as int);
                }
                assert(symbols.deep_view() =~= clip(full, width as int));
            }
            frame.write_line(self.position.row, &symbols, Color::Reset, Color::Reset);
            return ;
        }

        let mut symbols = char_symbols(self.prompt.as_str());
        let mut value_symbols = self.value.snippet(0, self.value.len());
        let ghost prompt_part = symbols.deep_view();
        let ghost value_part = value_symbols.deep_view();
        symbols.append(&mut value_symbols);
        proof {
            assert(symbols.deep_view() =~= prompt_part + value_part);
        }
        let ghost full = symbols.deep_view();
        let ghost pre = symbols@;
        symbols.truncate(width);
        proof {
            if width <= pre.len() {
                lemma_views_subrange(pre, symbols@, 0, width as int);
            }
            assert(symbols.deep_view() =~= clip(full, width as int));
        }
        frame.write_line(self.position.row, &symbols, Color::Reset, Color::Reset);

        if self.focused {
            let prompt_len = self.prompt.as_str().unicode_len();
            frame.set_cursor_position(
                Position::new(self.cursor_position.saturating_add(prompt_len), self.position.row),
            );
        }
    }
}

} // verus!
