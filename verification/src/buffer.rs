//! An editing buffer: a document, a cursor, and a scroll offset into the
//! viewport it is drawn in.

use crate::communication::{opt_cmd_view, Command, CommandV, Message, MessageV};
use crate::document::{
    doc_bytes, doc_delete, doc_insert, doc_insert_newline, Document, DocumentV, OutOfRangeError,
};
use crate::render::{char_symbols, frame_wf, frame_write, Draw, Frame, FrameV};
use crate::row::snippet_of;
use crate::ui::{sat_add, sat_sub, Color, Position, Rect};
use vstd::prelude::*;

verus! {

/// The abstract state of a `Buffer`.
pub struct BufferV {
    pub cursor_position: Position,
    pub document: DocumentV,
    pub focused: bool,
    pub offset: Position,
    pub viewport: Rect,
}

pub struct Buffer {
    cursor_position: Position,
    document: Document,
    focused: bool,
    offset: Position,
    viewport: Rect,
}

impl View for Buffer {
    type V = BufferV;

    closed spec fn view(&self) -> BufferV {
        BufferV {
            cursor_position: self.cursor_position,
            document: self.document@,
            focused: self.focused,
            offset: self.offset,
            viewport: self.viewport,
        }
    }
}

impl DeepView for Buffer {
    type V = BufferV;

    open spec fn deep_view(&self) -> BufferV {
        self.view()
    }
}

/// The name a document displays: its file name, or a stand-in when it
/// has none.
pub open spec fn document_display_name(name: Option<Seq<char>>) -> Seq<char> {
    match name {
        Some(n) => n,
        None => "[No Name]"@,
    }
}

/// A buffer's viewport leaves room for the two status rows below it.
pub open spec fn buffer_wf(b: BufferV) -> bool {
    &&& b.viewport.width >= 1
    &&& b.viewport.height >= 2
}

/// The cursor after one movement message: movement saturates at the
/// document's edges and the column is clamped to the new row's length.
pub open spec fn move_cursor_step(b: BufferV, m: MessageV) -> Position {
    let terminal_height = b.viewport.height - 2;
    let col = b.cursor_position.col as int;
    let row = b.cursor_position.row as int;
    let height = b.document.rows.len() as int;
    let width = if row < height {
        b.document.rows[row].len() as int
    } else {
        0
    };
    let moved: (int, int) = match m {
        MessageV::MoveCursorUp(n) => (col, sat_sub(row, n as int)),
        MessageV::MoveCursorDown(n) => if row < height {
            (col, sat_add(row, n as int))
        } else {
            (col, row)
        },
        MessageV::MoveCursorLeft(n) => if col > 0 {
            (sat_sub(col, n as int), row)
        } else if row > 0 {
            (width, sat_sub(row, n as int))
        } else {
            (col, row)
        },
        MessageV::MoveCursorRight(n) => if col < width {
            (sat_add(col, n as int), row)
        } else if row < height {
            (0, sat_add(row, n as int))
        } else {
            (col, row)
        },
        MessageV::MoveCursorPageUp => if row > terminal_height {
            (col, row - terminal_height)
        } else {
            (col, 0)
        },
        MessageV::MoveCursorPageDown => if sat_add(row, terminal_height) < height {
            (col, row + terminal_height)
        } else {
            (col, height)
        },
        MessageV::MoveCursorLineStart => (0, row),
        MessageV::MoveCursorLineEnd => (width, row),
        _ => (col, row),
    };
    let new_width = if moved.1 < height {
        b.document.rows[moved.1].len() as int
    } else {
        0
    };
    let new_col = if moved.0 > new_width {
        new_width
    } else {
        moved.0
    };
    Position { col: new_col as usize, row: moved.1 as usize }
}

/// The scroll offset recomputed from the cursor and the viewport: each
/// axis scrolls back when the cursor is before the offset and forward
/// when it would fall outside the visible span.
pub open spec fn scroll_offset(b: BufferV) -> Position {
    let width = b.viewport.width as int;
    let height = b.viewport.height - 2;
    let col = b.cursor_position.col as int;
    let row = b.cursor_position.row as int;
    let row_off = if row < b.offset.row {
        row
    } else if row >= sat_add(b.offset.row as int, height as int) {
        sat_add(row - height, 1)
    } else {
        b.offset.row as int
    };
    let col_off = if col < b.offset.col {
        col
    } else if col >= sat_add(b.offset.col as int, width) {
        sat_add(col - width, 1)
    } else {
        b.offset.col as int
    };
    Position { col: col_off as usize, row: row_off as usize }
}

/// The scroll recompute keeps the cursor inside the visible span: at or
/// after the offset, and within the viewport's width and its height less
/// the two status rows.
pub proof fn lemma_scroll_keeps_cursor_visible(b: BufferV)
    requires
        b.viewport.width >= 1,
        b.viewport.height >= 3,
        b.cursor_position.col < usize::MAX,
        b.cursor_position.row < usize::MAX,
    ensures
        scroll_offset(b).row <= b.cursor_position.row,
        b.cursor_position.row < sat_add(
            scroll_offset(b).row as int,
            b.viewport.height - 2,
        ),
        scroll_offset(b).col <= b.cursor_position.col,
        b.cursor_position.col < sat_add(scroll_offset(b).col as int, b.viewport.width as int),
{
}

/// One message applied to a buffer, before the scroll recompute: the new
/// state and the command it defers, if any. An insert beyond the
/// document's rows is rejected.
pub open spec fn buffer_apply(b: BufferV, m: MessageV) -> Result<(BufferV, Option<CommandV>), ()> {
    match m {
        MessageV::InsertChar(ch) => if b.cursor_position.row <= b.document.rows.len() {
            let b2 = BufferV {
                document: DocumentV {
                    rows: doc_insert(
                        b.document.rows,
                        b.cursor_position.col as int,
                        b.cursor_position.row as int,
                        ch,
                    ),
                    ..b.document
                },
                ..b
            };
            Ok(
                (
                    BufferV {
                        cursor_position: move_cursor_step(b2, MessageV::MoveCursorRight(1)),
                        ..b2
                    },
                    None,
                ),
            )
        } else {
            Err(())
        },
        MessageV::InsertLineBreak => {
            let b2 = BufferV {
                document: DocumentV {
                    rows: doc_insert_newline(
                        b.document.rows,
                        b.cursor_position.col as int,
                        b.cursor_position.row as int,
                    ),
                    ..b.document
                },
                ..b
            };
            let b3 = BufferV {
                cursor_position: move_cursor_step(b2, MessageV::MoveCursorDown(1)),
                ..b2
            };
            Ok(
                (
                    BufferV {
                        cursor_position: move_cursor_step(b3, MessageV::MoveCursorLineStart),
                        ..b3
                    },
                    None,
                ),
            )
        },
        MessageV::DeleteCharForward => Ok(
            (
                BufferV {
                    document: DocumentV {
                        rows: doc_delete(
                            b.document.rows,
                            b.cursor_position.col as int,
                            b.cursor_position.row as int,
                        ),
                        ..b.document
                    },
                    ..b
                },
                None,
            ),
        ),
        MessageV::DeleteCharBackward => if b.cursor_position.col > 0 || b.cursor_position.row
            > 0 {
            let b2 = BufferV {
                cursor_position: move_cursor_step(b, MessageV::MoveCursorLeft(1)),
                ..b
            };
            Ok(
                (
                    BufferV {
                        document: DocumentV {
                            rows: doc_delete(
                                b2.document.rows,
                                b2.cursor_position.col as int,
                                b2.cursor_position.row as int,
                            ),
                            ..b2.document
                        },
                        ..b2
                    },
                    None,
                ),
            )
        } else {
            Ok((b, None))
        },
        MessageV::Save => Ok(
            (
                b,
                match b.document.file_name {
                    Some(name) => Some(
                        CommandV::WriteFile { name, contents: doc_bytes(b.document.rows) },
                    ),
                    None => None,
                },
            ),
        ),
        MessageV::SaveAs(name) => Ok(
            (
                BufferV {
                    document: DocumentV { file_name: Some(name), ..b.document },
                    ..b
                },
                Some(CommandV::WriteFile { name, contents: doc_bytes(b.document.rows) }),
            ),
        ),
        _ => Ok((BufferV { cursor_position: move_cursor_step(b, m), ..b }, None)),
    }
}

/// One message applied to a buffer: the edit, then the scroll recompute.
pub open spec fn buffer_step(b: BufferV, m: MessageV) -> Result<
    (BufferV, Option<CommandV>),
    (),
> {
    match buffer_apply(b, m) {
        Ok(step) => Ok((BufferV { offset: scroll_offset(step.0), ..step.0 }, step.1)),
        Err(e) => Err(e),
    }
}

impl Buffer {
    /// A fresh, unfocused buffer over the given document, drawn into the
    /// given viewport with no scroll.
    pub fn new(viewport: Rect, document: Document) -> (r: Self)
        requires
            viewport.width >= 1,
            viewport.height >= 2,
        ensures
            r@ == (BufferV {
                cursor_position: Position { col: 0, row: 0 },
                document: document@,
                focused: false,
                offset: Position { col: 0, row: 0 },
                viewport,
            }),
            buffer_wf(r@),
    {
        Self {
            cursor_position: Position::default(),
            document,
            focused: false,
            offset: Position::default(),
            viewport,
        }
    }

    /// The name of the document, or a stand-in when it has none.
    pub fn document_name(&self) -> (r: String)
        ensures
            r@ == document_display_name(self@.document.file_name),
    {
        match self.document.file_name() {
            Some(name) => name.clone(),
            None => String::from_str("[No Name]"),
        }
    }

    /// The cursor's position on screen: its document position less the
    /// scroll offset.
    pub fn cursor_position(&self) -> (r: Position)
        ensures
            r.col == sat_sub(self@.cursor_position.col as int, self@.offset.col as int),
            r.row == sat_sub(self@.cursor_position.row as int, self@.offset.row as int),
    {
        Position::new(
            self.cursor_position.col.saturating_sub(self.offset.col),
            self.cursor_position.row.saturating_sub(self.offset.row),
        )
    }

    /// The number of lines in the document.
    pub fn lines_in_document(&self) -> (r: usize)
        ensures
            r == self@.document.rows.len(),
    {
        self.document.len()
    }

    /// Recompute the scroll offset from the cursor and the viewport.
    pub fn scroll(&mut self)
        requires
            buffer_wf(old(self)@),
        ensures
            final(self)@ == (BufferV { offset: scroll_offset(old(self)@), ..old(self)@ }),
    {
        let width = self.viewport.width;
        let height = self.viewport.height - 2;
        let col = self.cursor_position.col;
        let row = self.cursor_position.row;

        let row_off = if row < self.offset.row {
            row
        } else if row >= self.offset.row.saturating_add(height) {
            (row - height).saturating_add(1)
        } else {
            self.offset.row
        };

        let col_off = if col < self.offset.col {
            col
        } else if col >= self.offset.col.saturating_add(width) {
            (col - width).saturating_add(1)
        } else {
            self.offset.col
        };

        self.offset = Position::new(col_off, row_off);
    }

    /// Move the cursor for one movement message, clamping the column to
    /// the length of the row the cursor lands on.
    fn move_cursor(&mut self, msg: Message)
        requires
            buffer_wf(old(self)@),
        ensures
            final(self)@ == (BufferV {
                cursor_position: move_cursor_step(old(self)@, msg@),
                ..old(self)@
            }),
    {
        let terminal_height = self.viewport.height - 2;
        let col = self.cursor_position.col;
        let row = self.cursor_position.row;
        let height = self.document.len();
        let width = match self.document.row(row) {
            Some(r) => r.len(),
            None => 0,
        };

        let moved: (usize, usize) = match msg {
            Message::MoveCursorUp(n) => (col, row.saturating_sub(n)),
            Message::MoveCursorDown(n) => if row < height {
                (col, row.saturating_add(n))
            } else {
                (col, row)
            },
            Message::MoveCursorLeft(n) => if col > 0 {
                (col.saturating_sub(n), row)
            } else if row > 0 {
                (width, row.saturating_sub(n))
            } else {
                (col, row)
            },
            Message::MoveCursorRight(n) => if col < width {
                (col.saturating_add(n), row)
            } else if row < height {
                (0, row.saturating_add(n))
            } else {
                (col, row)
            },
            Message::MoveCursorPageUp => if row > terminal_height {
                (col, row - terminal_height)
            } else {
                (col, 0)
            },
            Message::MoveCursorPageDown => if row.saturating_add(terminal_height) < height {
                (col, row + terminal_height)
            } else {
                (col, height)
            },
            Message::MoveCursorLineStart => (0, row),
            Message::MoveCursorLineEnd => (width, row),
            _ => (col, row),
        };

        let new_width = match self.document.row(moved.1) {
            Some(r) => r.len(),
            None => 0,
        };

        self.cursor_position = Position {
            col: if moved.0 > new_width {
                new_width
            } else {
                moved.0
            },
            row: moved.1,
        };
    }

    /// Apply one message to the buffer: edits go to the document, saves
    /// are deferred as a file-write command, movement moves the cursor,
    /// and the scroll offset is recomputed afterwards.
    #[verifier::rlimit(100)]
    pub fn update(&mut self, msg: Message) -> (r: Result<Option<Command>, OutOfRangeError>)
        requires
            buffer_wf(old(self)@),
        ensures
            buffer_wf(final(self)@),
            match buffer_step(old(self)@, msg@) {
                Ok(step) => r is Ok && final(self)@ == step.0 && (r matches Ok(cmd)
                    && opt_cmd_view(cmd) == step.1),
                Err(_) => r is Err && final(self)@ == old(self)@,
            },
    {
        let cmd: Option<Command> = match msg {
            Message::InsertChar(ch) => {
                match self.document.insert(&self.cursor_position, ch) {
                    Ok(u) => u,
                    Err(e) => {
                        return Err(e);
                    },
                };
                self.move_cursor(Message::MoveCursorRight(1));
                None
            },
            Message::InsertLineBreak => {
                self.document.insert_newline(&self.cursor_position);
                self.move_cursor(Message::MoveCursorDown(1));
                self.move_cursor(Message::MoveCursorLineStart);
                None
            },
            Message::DeleteCharForward => {
                self.document.delete(&self.cursor_position);
                None
            },
            Message::DeleteCharBackward => {
                if self.cursor_position.col > 0 || self.cursor_position.row > 0 {
                    self.move_cursor(Message::MoveCursorLeft(1));
                    self.document.delete(&self.cursor_position);
                }
                None
            },
            Message::Save => {
                match self.document.save(None) {
                    Some(target) => Some(
                        Command::WriteFile { name: target.0, contents: target.1 },
                    ),
                    None => None,
                }
            },
            Message::SaveAs(filename) => {
                match self.document.save(Some(filename)) {
                    Some(target) => Some(
                        Command::WriteFile { name: target.0, contents: target.1 },
                    ),
                    None => None,
                }
            },
            other => {
                self.move_cursor(other);
                None
            },
        };

        self.scroll();
        Ok(cmd)
    }
}

/// The frame after the first `upto` rows of the buffer were drawn: the
/// visible snippet of each document row under the scroll offset, and a
/// tilde on each row past the end of the document.
pub open spec fn buffer_rows(b: BufferV, f: FrameV, upto: int) -> FrameV
    decreases upto,
{
    if upto <= 0 {
        f
    } else {
        let f2 = buffer_rows(b, f, upto - 1);
        let r = upto - 1;
        let idx = b.offset.row + r;
        if idx < b.document.rows.len() {
            frame_write(
                f2,
                r,
                snippet_of(
                    b.document.rows[idx],
                    b.offset.col as int,
                    sat_add(b.offset.col as int, b.viewport.width as int),
                ),
                Color::Reset,
                Color::Reset,
            )
        } else {
            frame_write(f2, r, seq![seq!['~']], Color::Gray, Color::Reset)
        }
    }
}

impl Draw for Buffer {
    /// The buffer draws on any frame at least as large as its viewport.
    open spec fn fits(&self, area: Rect) -> bool {
        &&& self@.viewport.height <= area.height
        &&& self@.viewport.width <= area.width
    }

    open spec fn renders(&self, before: FrameV, after: FrameV) -> bool {
        after == buffer_rows(
            self@,
            if self@.focused {
                FrameV { cursor_position: self@.cursor_position, ..before }
            } else {
                before
            },
            self@.viewport.height as int,
        )
    }

    fn render_to(&self, frame: &mut Frame) {
        if self.focused {
            frame.set_cursor_position(self.cursor_position);
        }
        let ghost base = frame@;

        let doc_len = self.document.len();
        let tilde = char_symbols("~");
        proof {
            reveal_strlit("~");
            assert(tilde.deep_view() =~= seq![seq!['~']]);
        }

        let mut row_in_view: usize = 0;
        while row_in_view < self.viewport.height
            invariant
                row_in_view <= self.viewport.height,
                frame_wf(frame@),
                frame@.area == base.area,
                self@.viewport.height <= frame@.area.height,
                self@.viewport.width <= frame@.area.width,
                doc_len == self@.document.rows.len(),
                tilde.deep_view() == seq![seq!['~']],
                frame@ == buffer_rows(self@, base, row_in_view as int),
            decreases self.viewport.height - row_in_view,
        {
            let idx_opt = self.offset.row.checked_add(row_in_view);
            let mut drew = false;
            if let Some(idx) = idx_opt {
                match self.document.row(idx) {
                    Some(doc_row) => {
                        let end = self.offset.col.saturating_add(self.viewport.width);
                        let symbols = doc_row.snippet(self.offset.col, end);
                        proof {
                            assert(symbols.deep_view().len() == symbols@.len());
                            assert(symbols@.len() <= self@.viewport.width);
                        }
                        frame.write_line(row_in_view, &symbols, Color::Reset, Color::Reset);
                        drew = true;
                    },
                    None => {},
                }
            }
            if !drew {
                proof {
                    assert(tilde.deep_view().len() == tilde@.len());
                }
                frame.write_line(row_in_view, &tilde, Color::Gray, Color::Reset);
            }
            row_in_view += 1;
        }
    }
}

} // verus!
