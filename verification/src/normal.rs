//! The key grammar of `Normal` mode: `:` enters the command line, `i`
//! enters `Insert` mode, and an optional repeat count followed by one of
//! `h`, `j`, `k`, `l` moves the cursor.

use crate::communication::{opt_msg_view, Message, MessageV};
use crate::mode::{Execute, ExecuteV, Insert, Mode, ModeV};
use crate::row::chars_of;
use crate::ui::Position;
use vstd::prelude::*;

verus! {

/// Whether the character is one of the four movement keys.
pub open spec fn is_move_key(c: char) -> bool {
    c == 'h' || c == 'j' || c == 'k' || c == 'l'
}

/// Whether the character is a decimal digit.
pub open spec fn is_ascii_digit(c: char) -> bool {
    48 <= c as u32 <= 57
}

/// The value of one decimal digit.
pub open spec fn digit_val(c: char) -> int {
    c as u32 - 48
}

/// Whether every character of the sequence is a decimal digit.
pub open spec fn all_digits(s: Seq<char>) -> bool {
    forall|i: int| 0 <= i < s.len() ==> is_ascii_digit(#[trigger] s[i])
}

/// The value of a sequence of decimal digits, most significant first.
pub open spec fn digits_val(s: Seq<char>) -> int
    decreases s.len(),
{
    if s.len() == 0 {
        0
    } else {
        digits_val(s.drop_last()) * 10 + digit_val(s.last())
    }
}

/// The cursor movement for one of the four movement keys, with the given
/// repeat count.
pub open spec fn move_message(c: char, n: usize) -> MessageV {
    if c == 'h' {
        MessageV::MoveCursorLeft(n)
    } else if c == 'j' {
        MessageV::MoveCursorDown(n)
    } else if c == 'k' {
        MessageV::MoveCursorUp(n)
    } else {
        MessageV::MoveCursorRight(n)
    }
}

/// The `Normal`-mode grammar over the accumulated input: `:` enters
/// `Execute` mode, `i` enters `Insert` mode, a movement key moves by one,
/// and a movement key preceded by a repeat count (digits, not starting
/// with zero, fitting a `usize`) moves by that count. Anything else
/// matches no rule.
pub open spec fn normal_command(s: Seq<char>) -> Option<MessageV> {
    if s.len() == 1 && s[0] == ':' {
        Some(
            MessageV::EnterMode(
                ModeV::Execute(
                    ExecuteV {
                        line: Seq::empty(),
                        cursor_position: Position { col: 0, row: 0 },
                    },
                ),
            ),
        )
    } else if s.len() == 1 && s[0] == 'i' {
        Some(MessageV::EnterMode(ModeV::Insert))
    } else if s.len() == 1 && is_move_key(s[0]) {
        Some(move_message(s[0], 1))
    } else if s.len() >= 2 && is_move_key(s.last()) && all_digits(s.drop_last()) && s[0] != '0'
        && digits_val(s.drop_last()) <= usize::MAX {
        Some(move_message(s.last(), digits_val(s.drop_last()) as usize))
    } else {
        None
    }
}

/// A sequence of digits has a non-negative value.
proof fn lemma_digits_val_nonneg(s: Seq<char>)
    requires
        all_digits(s),
    ensures
        digits_val(s) >= 0,
    decreases s.len(),
{
    if s.len() > 0 {
        assert(all_digits(s.drop_last())) by {
            assert(forall|i: int| 0 <= i < s.len() - 1 ==> s.drop_last()[i] == s[i]);
        }
        lemma_digits_val_nonneg(s.drop_last());
    }
}

/// The value of a prefix of a digit sequence is at most the value of the
/// whole sequence.
proof fn lemma_digits_val_prefix(s: Seq<char>, j: int)
    requires
        all_digits(s),
        0 <= j <= s.len(),
    ensures
        digits_val(s.subrange(0, j)) <= digits_val(s),
    decreases s.len(),
{
    if j == s.len() {
        assert(s.subrange(0, j) =~= s);
    } else {
        assert(all_digits(s.drop_last())) by {
            assert(forall|i: int| 0 <= i < s.len() - 1 ==> s.drop_last()[i] == s[i]);
        }
        assert(s.subrange(0, j) =~= s.drop_last().subrange(0, j));
        lemma_digits_val_prefix(s.drop_last(), j);
        lemma_digits_val_nonneg(s.drop_last());
    }
}

/// The cursor-movement message for a movement key, with the given count.
fn exec_move_message(c: char, n: usize) -> (r: Message)
    ensures
        r@ == move_message(c, n),
{
    if c == 'h' {
        Message::MoveCursorLeft(n)
    } else if c == 'j' {
        Message::MoveCursorDown(n)
    } else if c == 'k' {
        Message::MoveCursorUp(n)
    } else {
        Message::MoveCursorRight(n)
    }
}

/// Match the accumulated `Normal`-mode input against the grammar.
pub fn command_for_input(input: &str) -> (r: Option<Message>)
    ensures
        opt_msg_view(r) == normal_command(input@),
{
    let chars = chars_of(input);
    let n = chars.len();
    if n == 0 {
        return None;
    }
    if n == 1 {
        let c = chars[0];
        if c == ':' {
            return Some(Message::EnterMode(Mode::Execute(Execute::default())));
        }
        if c == 'i' {
            return Some(Message::EnterMode(Mode::Insert(Insert::default())));
        }
        if c == 'h' || c == 'j' || c == 'k' || c == 'l' {
            return Some(exec_move_message(c, 1));
        }
        return None;
    }

    let last = chars[n - 1];
    if !(last == 'h' || last == 'j' || last == 'k' || last == 'l') {
        return None;
    }
    if chars[0] == '0' {
        return None;
    }

    let ghost s = input@;
    let mut value: usize = 0;
    let mut i: usize = 0;
    while i < n - 1
        invariant
            0 <= i <= n - 1,
            n == chars@.len(),
            n >= 2,
            chars@ == s,
            s == input@,
            all_digits(s.subrange(0, i as int)),
            value == digits_val(s.subrange(0, i as int)),
        decreases n - 1 - i,
    {
        let c = chars[i];
        let code = c as u32;
        if code < 48 || code > 57 {
            proof {
                assert(!is_ascii_digit(s[i as int]));
                assert(s.drop_last()[i as int] == s[i as int]);
                assert(!all_digits(s.drop_last()));
            }
            return None;
        }
        let d = (code - 48) as usize;
        proof {
            assert(s.subrange(0, i + 1).drop_last() =~= s.subrange(0, i as int));
            assert(s.subrange(0, i + 1).last() == s[i as int]);
            assert(all_digits(s.subrange(0, i + 1)));
        }
        let grown = match value.checked_mul(10) {
            Some(v) => v.checked_add(d),
            None => None,
        };
        match grown {
            Some(v) => {
                value = v;
            },
            None => {
                proof {
                    if all_digits(s.drop_last()) {
                        lemma_digits_val_prefix(s.drop_last(), i + 1);
                        assert(s.drop_last().subrange(0, i + 1) =~= s.subrange(0, i + 1));
                        assert(digits_val(s.drop_last()) > usize::MAX);
                    }
                }
                return None;
            },
        }
        i += 1;
    }
    proof {
        assert(s.subrange(0, n - 1) =~= s.drop_last());
    }
    Some(exec_move_message(last, value))
}

} // verus!
