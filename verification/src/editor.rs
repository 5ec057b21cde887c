//! `Editor` is the entry point into the application: it owns the root
//! window and the viewport, turns key presses into messages through the
//! active mode, and applies one message at a time, rendering after each.
//! The surrounding application drives it from its event loop.

use crate::communication::{opt_cmd_view, opt_msg_view, Command, Message, MessageV};
use crate::document::OutOfRangeError;
use crate::execute::execute_command;
use crate::input::Key;
use crate::mode::{execute_handle, insert_handle, normal_step, Mode, ModeV};
use crate::render::{blank_cells, viewport_wf, Canvas, CanvasError, Viewport};
use crate::window::{window_can_update, window_rendered, window_step, window_wf, Window};
use vstd::prelude::*;

verus! {

/// An error that ends the editor loop: a rejected document edit or a
/// failure of the drawing surface.
#[derive(Debug)]
pub enum EditorError {
    Edit(OutOfRangeError),
    Canvas(CanvasError),
}

/// What the loop should do after a message was applied: execute a
/// deferred command, re-inject a message, or neither.
pub struct Reaction {
    pub command: Option<Command>,
    pub reinject: Option<Message>,
}

/// The abstract state of the `Editor`.
pub struct EditorV {
    pub mode: ModeV,
    pub window: crate::window::WindowV,
    pub should_quit: bool,
    pub viewport: crate::render::ViewportV,
}

/// A well-formed editor: its window and viewport are well-formed and the
/// window covers exactly the viewport's area.
pub open spec fn editor_wf(e: EditorV) -> bool {
    &&& window_wf(e.window)
    &&& viewport_wf(e.viewport)
    &&& e.window.size == e.viewport.area
}

/// One key press handled by the active mode: the mode afterwards and the
/// message it produced, if any.
pub open spec fn key_step(m: ModeV, key: Key) -> (ModeV, Option<MessageV>) {
    match m {
        ModeV::Execute(_) => (m, execute_handle(key)),
        ModeV::Insert => (m, insert_handle(key)),
        ModeV::Normal(pending) => {
            let step = normal_step(pending, key);
            (ModeV::Normal(step.0), step.1)
        },
    }
}

/// Whether the editor can apply the message: a finished command line is
/// handled by the editor itself; everything else must be routable by the
/// window.
pub open spec fn editor_can_apply(e: EditorV, m: MessageV) -> bool {
    match m {
        MessageV::ParseCommandLineInput(_) => true,
        _ => window_can_update(e.window, m),
    }
}

/// What applying one message guarantees when it succeeds. A finished
/// command line is parsed and its message re-injected, with the editor's
/// mode returning to `Normal`; any other message sets the quit flag on
/// `Quit`, switches the editor's mode on `EnterMode`, steps the window,
/// and renders the window into the viewport.
pub open spec fn editor_apply_ok(
    e: EditorV,
    m: MessageV,
    e2: EditorV,
    command: Option<crate::communication::CommandV>,
    reinject: Option<MessageV>,
) -> bool {
    match m {
        MessageV::ParseCommandLineInput(input) => {
            &&& e2.should_quit == e.should_quit
            &&& e2.mode == (if e.mode is Execute {
                ModeV::Normal(Seq::<char>::empty())
            } else {
                e.mode
            })
            &&& command is None
            &&& reinject == (if e.mode is Execute {
                execute_command(input)
            } else {
                None
            })
            &&& if window_can_update(e.window, MessageV::EnterMode(ModeV::Normal(Seq::empty()))) {
                &&& window_step(e.window, MessageV::EnterMode(ModeV::Normal(Seq::empty())))
                    matches Ok(step) && e2.window == step.0
                &&& e2.viewport.shown == window_rendered(e2.window, e.viewport.work)
                &&& blank_cells(e2.viewport.work.cells)
            } else {
                e2.window == e.window && e2.viewport == e.viewport
            }
        },
        _ => {
            &&& e2.should_quit == (e.should_quit || m is Quit)
            &&& e2.mode == (match m {
                MessageV::EnterMode(md) => md,
                _ => e.mode,
            })
            &&& window_step(e.window, m) == Ok::<_, ()>((e2.window, command))
            &&& reinject is None
            &&& e2.viewport.shown == window_rendered(e2.window, e.viewport.work)
            &&& blank_cells(e2.viewport.work.cells)
        },
    }
}

/// `Editor` orchestrates communication between the components: it owns
/// the root window, the active mode, and the viewport over the drawing
/// surface.
pub struct Editor<C: Canvas> {
    mode: Mode,
    window: Window,
    should_quit: bool,
    viewport: Viewport<C>,
}

impl<C: Canvas> View for Editor<C> {
    type V = EditorV;

    closed spec fn view(&self) -> EditorV {
        EditorV {
            mode: self.mode@,
            window: self.window@,
            should_quit: self.should_quit,
            viewport: self.viewport@,
        }
    }
}

impl<C: Canvas> Editor<C> {
    /// Create a new editor over the given drawing surface, sized to what
    /// the surface reports; a surface too small to hold a buffer and the
    /// two status rows is refused.
    pub fn new(canvas: C) -> (r: Result<Self, CanvasError>)
        ensures
            r matches Ok(e) ==> editor_wf(e@) && e@.mode == ModeV::Normal(Seq::<char>::empty())
                && !e@.should_quit && e@.window.buffers.len() == 0 && blank_cells(
                e@.viewport.work.cells,
            ),
    {
        let viewport = match Viewport::new(canvas) {
            Ok(v) => v,
            Err(e) => {
                return Err(e);
            },
        };
        let area = viewport.area();
        if area.height < 3 {
            return Err(
                CanvasError { message: String::from_str("unable to initialise Viewport") },
            );
        }

        let mode = Mode::default();
        let window = Window::new(area, mode.clone());

        Ok(Self { mode, window, should_quit: false, viewport })
    }

    /// Whether a `Quit` message has been applied.
    pub fn should_quit(&self) -> (r: bool)
        ensures
            r == self@.should_quit,
    {
        self.should_quit
    }

    /// Hand one key press to the active mode; the message it produces, if
    /// any, is to be applied by the loop.
    pub fn handle_key(&mut self, key: Key) -> (r: Option<Message>)
        ensures
            final(self)@ == (EditorV { mode: key_step(old(self)@.mode, key).0, ..old(self)@ }),
            opt_msg_view(r) == key_step(old(self)@.mode, key).1,
    {
        match &mut self.mode {
            Mode::Execute(m) => m.handle(key),
            Mode::Insert(m) => m.handle(key),
            Mode::Normal(m) => m.handle(key),
        }
    }

    /// Whether the editor can apply the message; the loop must check this
    /// before calling `apply_message`, and treat a refusal as the fatal
    /// routing fault it is.
    pub fn can_apply(&self, msg: &Message) -> (r: bool)
        ensures
            r == editor_can_apply(self@, msg@),
    {
        match msg {
            Message::ParseCommandLineInput(_) => true,
            _ => self.window.can_update(msg),
        }
    }

    /// Apply one message: a finished command line is parsed and its
    /// message handed back for re-injection; any other message updates
    /// the quit flag and the mode, steps the window, and renders. The
    /// reaction carries at most one deferred command or re-injected
    /// message.
    #[verifier::rlimit(100)]
    pub fn apply_message(&mut self, msg: Message) -> (r: Result<Reaction, EditorError>)
        requires
            editor_wf(old(self)@),
            editor_can_apply(old(self)@, msg@),
        ensures
            editor_wf(final(self)@),
            r matches Ok(reaction) ==> editor_apply_ok(
                old(self)@,
                msg@,
                final(self)@,
                opt_cmd_view(reaction.command),
                opt_msg_view(reaction.reinject),
            ),
            r is Err ==> final(self)@.should_quit == (old(self)@.should_quit || msg@ is Quit),
            msg@ matches MessageV::ParseCommandLineInput(_) && !window_can_update(
                old(self)@.window,
                MessageV::EnterMode(ModeV::Normal(Seq::empty())),
            ) ==> r is Ok,
            !(msg@ is ParseCommandLineInput) ==> ((r matches Err(EditorError::Edit(_)))
                <==> window_step(old(self)@.window, msg@) is Err),
            r matches Err(EditorError::Edit(_)) ==> final(self)@.window == old(self)@.window
                && final(self)@.viewport == old(self)@.viewport,
    {
        if matches!(msg, Message::Quit) {
            self.should_quit = true;
        }

        match msg {
            Message::ParseCommandLineInput(input) => {
                let reinject = if matches!(self.mode, Mode::Execute(_)) {
                    let r = crate::execute::command_for_input(input.as_str());
                    self.mode = Mode::default();
                    r
                } else {
                    None
                };
                // The finished command line hands focus back to the
                // window's normal routing, so that the parsed message can
                // reach the buffer; with no buffer open the window keeps
                // the command line addressed.
                let back_to_normal = Message::EnterMode(Mode::default());
                if self.window.can_update(&back_to_normal) {
                    match self.window.update(back_to_normal) {
                        Ok(_) => (),
                        Err(e) => {
                            return Err(EditorError::Edit(e));
                        },
                    };
                    match self.viewport.render(&self.window) {
                        Ok(u) => u,
                        Err(e) => {
                            return Err(EditorError::Canvas(e));
                        },
                    };
                }
                Ok(Reaction { command: None, reinject })
            },
            Message::EnterMode(mode) => {
                self.mode = mode.clone();
                let command = match self.window.update(Message::EnterMode(mode)) {
                    Ok(c) => c,
                    Err(e) => {
                        return Err(EditorError::Edit(e));
                    },
                };
                match self.viewport.render(&self.window) {
                    Ok(u) => u,
                    Err(e) => {
                        return Err(EditorError::Canvas(e));
                    },
                };
                Ok(Reaction { command, reinject: None })
            },
            other => {
                let command = match self.window.update(other) {
                    Ok(c) => c,
                    Err(e) => {
                        return Err(EditorError::Edit(e));
                    },
                };
                match self.viewport.render(&self.window) {
                    Ok(u) => u,
                    Err(e) => {
                        return Err(EditorError::Canvas(e));
                    },
                };
                Ok(Reaction { command, reinject: None })
            },
        }
    }

    /// Render the current state of the window, so that the screen shows
    /// something before the first input event arrives.
    pub fn render(&mut self) -> (r: Result<(), CanvasError>)
        requires
            editor_wf(old(self)@),
        ensures
            editor_wf(final(self)@),
            final(self)@.mode == old(self)@.mode,
            final(self)@.window == old(self)@.window,
            final(self)@.should_quit == old(self)@.should_quit,
            r is Ok ==> final(self)@.viewport.shown == window_rendered(
                old(self)@.window,
                old(self)@.viewport.work,
            ) && blank_cells(final(self)@.viewport.work.cells),
    {
        self.viewport.render(&self.window)
    }
}

} // verus!
