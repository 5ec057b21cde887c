//! `Component` is the foundation for all interactivity within the
//! editor: anything that can be updated by a message implements it.

use crate::buffer::{buffer_wf, Buffer};
use crate::communication::{Command, Message};
use crate::document::OutOfRangeError;
use crate::text_input::TextInput;
use crate::window::{window_can_update, window_wf, Window};
use vstd::prelude::*;

verus! {

/// A component takes messages and may answer each with one deferred
/// command. Each implementation says through `ready` which messages it
/// can accept in which states.
pub trait Component {
    /// Whether the component can currently accept the message.
    spec fn ready(&self, msg: Message) -> bool;

    /// Apply one message, possibly deferring a command.
    fn update(&mut self, msg: Message) -> Result<Option<Command>, OutOfRangeError>
        requires
            old(self).ready(msg),
    ;
}

impl Component for Window {
    open spec fn ready(&self, msg: Message) -> bool {
        window_wf(self@) && window_can_update(self@, msg@)
    }

    fn update(&mut self, msg: Message) -> Result<Option<Command>, OutOfRangeError> {
        let r = Window::update(self, msg);
        r
    }
}

impl Component for Buffer {
    open spec fn ready(&self, msg: Message) -> bool {
        buffer_wf(self@)
    }

    fn update(&mut self, msg: Message) -> Result<Option<Command>, OutOfRangeError> {
        let r = Buffer::update(self, msg);
        r
    }
}

impl Component for TextInput {
    open spec fn ready(&self, msg: Message) -> bool {
        true
    }

    fn update(&mut self, msg: Message) -> Result<Option<Command>, OutOfRangeError> {
        let r = TextInput::update(self, msg);
        r
    }
}

} // verus!
