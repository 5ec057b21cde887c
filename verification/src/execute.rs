//! The command-line mini-language: `q` quits, `w` saves, `w <name>` saves
//! under the given name.

use crate::communication::{opt_msg_view, Message, MessageV};
use crate::row::{chars_of, push_char};
use vstd::prelude::*;

verus! {

/// The finished command line's meaning: exactly `q` quits, exactly `w`
/// saves, `w` followed by a space and at least one character saves under
/// that name; anything else produces no message.
pub open spec fn execute_command(s: Seq<char>) -> Option<MessageV> {
    if s.len() == 1 && s[0] == 'q' {
        Some(MessageV::Quit)
    } else if s.len() == 1 && s[0] == 'w' {
        Some(MessageV::Save)
    } else if s.len() >= 3 && s[0] == 'w' && s[1] == ' ' {
        Some(MessageV::SaveAs(s.subrange(2, s.len() as int)))
    } else {
        None
    }
}

/// Parse a finished command line.
pub fn command_for_input(input: &str) -> (r: Option<Message>)
    ensures
        opt_msg_view(r) == execute_command(input@),
{
    let chars = chars_of(input);
    let n = chars.len();
    if n == 1 {
        if chars[0] == 'q' {
            return Some(Message::Quit);
        }
        if chars[0] == 'w' {
            return Some(Message::Save);
        }
        return None;
    }
    if n >= 3 && chars[0] == 'w' && chars[1] == ' ' {
        let mut name = String::new();
        let mut i: usize = 2;
        while i < n
            invariant
                2 <= i <= n,
                n == chars@.len(),
                chars@ == input@,
                name@ == input@.subrange(2, i as int),
            decreases n - i,
        {
            push_char(&mut name, chars[i]);
            proof {
                assert(name@ =~= input@.subrange(2, i + 1));
            }
            i += 1;
        }
        return Some(Message::SaveAs(name));
    }
    None
}

} // verus!
