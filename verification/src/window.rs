//! `Window` is the root component: it owns the editing buffers and the
//! command-line input, intercepts mode changes, and routes every other
//! message to whichever component the current mode addresses.

use crate::buffer::{
    buffer_rows, buffer_step, buffer_wf, document_display_name, Buffer, BufferV,
};
use crate::communication::{opt_cmd_view, Command, CommandV, Message, MessageV};
use crate::document::{Document, DocumentV, OutOfRangeError};
use crate::mode::{mode_name, Mode, ModeV};
use crate::render::{frame_write, Draw, Frame, FrameV};
use crate::status_bar::{status_symbols, StatusBar};
use crate::text_input::{text_input_frame, text_input_step, TextInput, TextInputV};
use crate::ui::{sat_sub, Color, Position, Rect};
use crate::welcome::{welcome_rows, Welcome};
use vstd::prelude::*;

verus! {

/// The abstract state of a `Window`.
pub struct WindowV {
    pub active_buffer_idx: usize,
    pub buffers: Seq<BufferV>,
    pub command_prompt: TextInputV,
    pub mode: ModeV,
    pub size: Rect,
}

/// `Window` is the default root component for the `Editor`.
pub struct Window {
    active_buffer_idx: usize,
    buffers: Vec<Buffer>,
    command_prompt: TextInput,
    mode: Mode,
    size: Rect,
}

impl View for Window {
    type V = WindowV;

    closed spec fn view(&self) -> WindowV {
        WindowV {
            active_buffer_idx: self.active_buffer_idx,
            buffers: self.buffers.deep_view(),
            command_prompt: self.command_prompt@,
            mode: self.mode@,
            size: self.size,
        }
    }
}

/// The space the active buffer is drawn in.
pub open spec fn window_buffer_space(size: Rect) -> Rect {
    Rect {
        width: size.width,
        height: size.height,
        position: Position {
            col: size.position.col,
            row: (size.position.row + size.height - 3) as usize,
        },
    }
}

/// A fresh buffer over a blank document, created when `Insert` mode is
/// entered with no buffer open.
pub open spec fn fresh_buffer(size: Rect) -> BufferV {
    BufferV {
        cursor_position: Position { col: 0, row: 0 },
        document: DocumentV { file_name: None, rows: seq![Seq::<Seq<char>>::empty()] },
        focused: false,
        offset: Position { col: 0, row: 0 },
        viewport: window_buffer_space(size),
    }
}

/// A well-formed window: its size sits at the origin with room for a
/// buffer and the two status rows, it has at most one buffer (the active
/// one), every buffer draws into the window's buffer space, and the
/// command prompt sits on the last row.
pub open spec fn window_wf(w: WindowV) -> bool {
    &&& w.size.wf()
    &&& w.size.position.col == 0
    &&& w.size.position.row == 0
    &&& w.size.height >= 3
    &&& w.active_buffer_idx == 0
    &&& w.buffers.len() <= 1
    &&& forall|i: int|
        0 <= i < w.buffers.len() ==> buffer_wf(#[trigger] w.buffers[i]) && w.buffers[i].viewport
            == window_buffer_space(w.size)
    &&& w.command_prompt.position.row == w.size.height - 1
}

/// The window after intercepting a mode change: entering `Insert` with no
/// buffer creates one, entering `Execute` focuses the command prompt, any
/// other mode unfocuses it.
pub open spec fn window_intercept(w: WindowV, m: MessageV) -> WindowV {
    match m {
        MessageV::EnterMode(md) => {
            let buffers = if md is Insert && w.buffers.len() == 0 {
                w.buffers.push(fresh_buffer(w.size))
            } else {
                w.buffers
            };
            let prompt = if md is Execute {
                TextInputV { focused: true, ..w.command_prompt }
            } else {
                TextInputV { focused: false, ..w.command_prompt }
            };
            WindowV { buffers, command_prompt: prompt, mode: md, ..w }
        },
        _ => w,
    }
}

/// Whether the window can route the message: after the mode-change
/// intercept, either the command line is addressed or a buffer exists.
pub open spec fn window_can_update(w: WindowV, m: MessageV) -> bool {
    let w1 = window_intercept(w, m);
    w1.mode is Execute || w1.buffers.len() > 0
}

/// One message applied to the window: the mode-change intercept, then the
/// message routed to the command prompt in `Execute` mode and to the
/// active buffer otherwise.
pub open spec fn window_step(w: WindowV, m: MessageV) -> Result<
    (WindowV, Option<CommandV>),
    (),
> {
    let w1 = window_intercept(w, m);
    if w1.mode is Execute {
        let step = text_input_step(w1.command_prompt, m);
        Ok((WindowV { command_prompt: step.0, ..w1 }, step.1))
    } else {
        match buffer_step(w1.buffers[w1.active_buffer_idx as int], m) {
            Ok(step) => Ok(
                (
                    WindowV {
                        buffers: w1.buffers.update(w1.active_buffer_idx as int, step.0),
                        ..w1
                    },
                    step.1,
                ),
            ),
            Err(e) => Err(e),
        }
    }
}

impl Window {
    /// A new window of the given size, starting in the given mode with no
    /// buffers; the command prompt sits on the last row and is focused
    /// exactly when the mode is `Execute`.
    pub fn new(size: Rect, mode: Mode) -> (r: Self)
        requires
            size.wf(),
            size.position.col == 0,
            size.position.row == 0,
            size.height >= 3,
        ensures
            window_wf(r@),
            r@.active_buffer_idx == 0,
            r@.buffers == Seq::<BufferV>::empty(),
            r@.mode == mode@,
            r@.size == size,
            r@.command_prompt == (TextInputV {
                cursor_position: 0,
                focused: mode@ is Execute,
                place_holder: " Press : to enter a command..."@,
                position: Position { col: 0, row: (size.height - 1) as usize },
                prompt: ":"@,
                value: Seq::empty(),
            }),
    {
        let mut command_prompt = TextInput::new(
            ":",
            " Press : to enter a command...",
            Position::new(0, size.bottom()),
        );

        if matches!(mode, Mode::Execute(_)) {
            command_prompt.focus();
        }

        let r = Self {
            active_buffer_idx: 0,
            buffers: Vec::new(),
            command_prompt,
            mode,
            size,
        };
        proof {
            assert(r@.buffers =~= Seq::<BufferV>::empty());
        }
        r
    }

    /// Whether the window holds any buffer.
    pub fn has_buffer(&self) -> (r: bool)
        ensures
            r == (self@.buffers.len() > 0),
    {
        let r = !self.buffers.is_empty();
        r
    }

    /// Whether the window can route the given message.
    pub fn can_update(&self, msg: &Message) -> (r: bool)
        ensures
            r == window_can_update(self@, msg@),
    {
        match msg {
            Message::EnterMode(m) => match m {
                Mode::Execute(_) => true,
                Mode::Insert(_) => true,
                Mode::Normal(_) => !self.buffers.is_empty(),
            },
            _ => matches!(self.mode, Mode::Execute(_)) || !self.buffers.is_empty(),
        }
    }

    /// The space the active buffer is drawn in.
    fn buffer_space(&self) -> (r: Rect)
        requires
            self@.size.wf(),
            self@.size.height >= 3,
        ensures
            r == window_buffer_space(self@.size),
    {
        Rect::positioned(
            self.size.width,
            self.size.height,
            self.size.left(),
            self.size.bottom() - 2,
        )
    }

    /// Apply one message to the window: intercept mode changes, then
    /// route the message to the command prompt or the active buffer.
    pub fn update(&mut self, msg: Message) -> (r: Result<Option<Command>, OutOfRangeError>)
        requires
            window_wf(old(self)@),
            window_can_update(old(self)@, msg@),
        ensures
            window_wf(final(self)@),
            match window_step(old(self)@, msg@) {
                Ok(step) => r is Ok && final(self)@ == step.0 && (r matches Ok(cmd)
                    && opt_cmd_view(cmd) == step.1),
                Err(_) => r is Err && final(self)@ == old(self)@,
            },
    {
        let msg = match msg {
            Message::EnterMode(mode) => {
                if matches!(mode, Mode::Insert(_)) && self.buffers.is_empty() {
                    let ghost pre = self.buffers@;
                    let buffer = Buffer::new(self.buffer_space(), Document::default());
                    self.buffers.push(buffer);
                    proof {
                        crate::row::lemma_views_push(pre, self.buffers@, buffer);
                        assert(self.buffers.deep_view() =~= old(self)@.buffers.push(
                            fresh_buffer(old(self)@.size),
                        ));
                    }
                }
                if matches!(mode, Mode::Execute(_)) {
                    self.command_prompt.focus();
                } else {
                    self.command_prompt.unfocus();
                }
                self.mode = mode.clone();
                Message::EnterMode(mode)
            },
            other => other,
        };

        if matches!(self.mode, Mode::Execute(_)) {
            let r = self.command_prompt.update(msg);
            return r;
        }

        let ghost w1 = window_intercept(old(self)@, msg@);
        let ghost pre = self.buffers@;
        let idx = self.active_buffer_idx;
        let buffer = &mut self.buffers[idx];
        let r = buffer.update(msg);
        proof {
            assert(forall|k: int| 0 <= k < pre.len() && k != idx ==> self.buffers@[k] == pre[k]);
            if r is Ok {
                assert(self.buffers.deep_view() =~= w1.buffers.update(
                    idx as int,
                    self.buffers@[idx as int]@,
                ));
            } else {
                assert(self.buffers.deep_view() =~= w1.buffers);
            }
        }
        r
    }
}

/// The frame after the window drew itself: the welcome screen when no
/// buffer is open, the active buffer otherwise; in `Normal` and `Insert`
/// mode the cursor is placed at the buffer's on-screen cursor (or the
/// origin with no buffer); then the status bar and the command prompt are
/// overlaid.
pub open spec fn window_rendered(w: WindowV, f: FrameV) -> FrameV {
    let space = window_buffer_space(w.size);
    let f1 = if w.buffers.len() == 0 {
        welcome_rows(space, f, space.height - 1)
    } else {
        let b = w.buffers[w.active_buffer_idx as int];
        buffer_rows(
            b,
            if b.focused {
                FrameV { cursor_position: b.cursor_position, ..f }
            } else {
                f
            },
            b.viewport.height as int,
        )
    };
    let f2 = if w.mode is Normal || w.mode is Insert {
        let pos = if w.buffers.len() == 0 {
            Position { col: 0, row: 0 }
        } else {
            let b = w.buffers[w.active_buffer_idx as int];
            Position {
                col: sat_sub(b.cursor_position.col as int, b.offset.col as int) as usize,
                row: sat_sub(b.cursor_position.row as int, b.offset.row as int) as usize,
            }
        };
        FrameV { cursor_position: pos, ..f1 }
    } else {
        f1
    };
    let file = if w.buffers.len() == 0 {
        Seq::<char>::empty()
    } else {
        document_display_name(w.buffers[w.active_buffer_idx as int].document.file_name)
    };
    let line_count: int = if w.buffers.len() == 0 {
        0
    } else {
        w.buffers[w.active_buffer_idx as int].document.rows.len() as int
    };
    let f3 = frame_write(
        f2,
        w.size.height - 2,
        status_symbols(
            mode_name(w.mode),
            file,
            f2.cursor_position.row as int,
            line_count,
            f2.cursor_position.col as int,
            w.size.width as int,
        ),
        Color::Rgb(63, 63, 63),
        Color::Rgb(239, 239, 239),
    );
    text_input_frame(w.command_prompt, f3)
}

impl Draw for Window {
    /// The window draws on a frame of exactly its own size.
    open spec fn fits(&self, area: Rect) -> bool {
        &&& self@.size == area
        &&& window_wf(self@)
    }

    open spec fn renders(&self, before: FrameV, after: FrameV) -> bool {
        after == window_rendered(self@, before)
    }

    fn render_to(&self, frame: &mut Frame) {
        if self.buffers.is_empty() {
            let welcome = Welcome { size: self.buffer_space() };
            welcome.render_to(frame);
        } else {
            let idx = self.active_buffer_idx;
            let buffer = &self.buffers[idx];
            proof {
                assert(buffer@ == self@.buffers[idx as int]);
                assert(buffer_wf(self@.buffers[idx as int]));
            }
            buffer.render_to(frame);
        }

        if matches!(self.mode, Mode::Normal(_)) || matches!(self.mode, Mode::Insert(_)) {
            let pos = if self.buffers.is_empty() {
                Position::default()
            } else {
                self.buffers[self.active_buffer_idx].cursor_position()
            };
            frame.set_cursor_position(pos);
        }

        let has_buffer = !self.buffers.is_empty();
        let idx = self.active_buffer_idx;
        proof {
            if self@.buffers.len() > 0 {
                assert(self.buffers@[idx as int]@ == self@.buffers[idx as int]);
            }
        }
        let file_name = if has_buffer {
            self.buffers[idx].document_name()
        } else {
            String::new()
        };
        let line_count = if has_buffer {
            self.buffers[idx].lines_in_document()
        } else {
            0
        };
        let status_bar = StatusBar {
            area: Rect::positioned(self.size.width, 1, self.size.left(), self.size.bottom() - 1),
            mode: String::from_str(self.mode.name()),
            line_count,
            cursor_position: frame.cursor_position(),
            file_name,
        };
        status_bar.render_to(frame);

        self.command_prompt.render_to(frame);
    }
}

} // verus!
