//! The welcome screen shown when no buffer is open: a column of tildes
//! with a centered banner line.

use crate::render::{
    char_symbols, chars_to_symbols, clip, frame_write, frame_wf, Draw, Frame, FrameV,
};
use crate::row::chars_of;
use crate::status_bar::spaces;
use crate::ui::{sat_sub, Color, Rect};
use vstd::prelude::*;

verus! {

/// The banner line: a tilde, spaces to center the text, and the editor's
/// name and version, clipped to the given width.
pub open spec fn welcome_message(width: int) -> Seq<char> {
    let msg = "Velm editor -- version 0.1.0"@;
    let padding = sat_sub(width, msg.len() as int) / 2;
    clip("~"@ + spaces(sat_sub(padding, 1)) + msg, width)
}

/// The welcome screen, sized to the space it may draw on.
pub struct Welcome {
    pub size: Rect,
}

/// The frame after the first `upto` rows of the welcome screen were
/// drawn: a tilde on every row but the banner row a third of the way
/// down.
pub open spec fn welcome_rows(size: Rect, f: FrameV, upto: int) -> FrameV
    decreases upto,
{
    if upto <= 0 {
        f
    } else {
        let f2 = welcome_rows(size, f, upto - 1);
        let r = upto - 1;
        if r == size.height / 3 {
            frame_write(
                f2,
                r,
                welcome_message(size.width as int).map_values(|c: char| seq![c]),
                Color::Reset,
                Color::Reset,
            )
        } else {
            frame_write(f2, r, seq![seq!['~']], Color::Reset, Color::Reset)
        }
    }
}

impl Draw for Welcome {
    /// The welcome screen draws on any frame at least as large as its own
    /// size.
    open spec fn fits(&self, area: Rect) -> bool {
        &&& 1 <= self.size.height <= area.height
        &&& self.size.width <= area.width
    }

    open spec fn renders(&self, before: FrameV, after: FrameV) -> bool {
        after == welcome_rows(self.size, before, self.size.height - 1)
    }

    fn render_to(&self, frame: &mut Frame) {
        let width = self.size.width;
        let mut message = chars_of("~");
        let msg = chars_of("Velm editor -- version 0.1.0");
        let padding = width.saturating_sub(msg.len()) / 2;
        let pad = padding.saturating_sub(1);
        let ghost head = message@;
        proof {
            assert(message@ =~= head + spaces(0));
        }
        let mut p: usize = 0;
        while p < pad
            invariant
                p <= pad,
                message@ == head + spaces(p as int),
            decreases pad - p,
        {
            message.push(' ');
            proof {
                assert(message@ =~= head + spaces(p + 1));
            }
            p += 1;
        }
        let mut tail = msg;
        message.append(&mut tail);
        let ghost full = message@;
        message.truncate(width);
        proof {
            assert(message@ =~= clip(full, width as int));
            assert(message@ =~= welcome_message(width as int));
        }
        let message_symbols = chars_to_symbols(&message);
        let tilde_symbols = char_symbols("~");
        proof {
            reveal_strlit("~");
            assert(tilde_symbols.deep_view() =~= seq![seq!['~']]);
            assert(message_symbols.deep_view() =~= welcome_message(width as int).map_values(
                |c: char| seq![c],
            ));
            assert(message_symbols.deep_view().len() == message_symbols@.len());
            assert(message_symbols.deep_view().len() == message@.map_values(
                |c: char| seq![c],
            ).len());
            assert(message@.len() <= width);
        }

        let ghost orig = frame@;
        let banner_row = self.size.height / 3;
        let mut row: usize = 0;
        while row < self.size.height - 1
            invariant
                row <= sat_sub(self.size.height as int, 1),
                1 <= self.size.height,
                frame_wf(frame@),
                frame@.area == orig.area,
                self.size.height <= frame@.area.height,
                self.size.width <= frame@.area.width,
                banner_row == self.size.height / 3,
                tilde_symbols.deep_view() == seq![seq!['~']],
                message_symbols@.len() <= self.size.width,
                message_symbols.deep_view() == welcome_message(self.size.width as int).map_values(
                    |c: char| seq![c],
                ),
                frame@ == welcome_rows(self.size, orig, row as int),
            decreases self.size.height - 1 - row,
        {
            if row == banner_row {
                frame.write_line(row, &message_symbols, Color::Reset, Color::Reset);
            } else {
                frame.write_line(row, &tilde_symbols, Color::Reset, Color::Reset);
            }
            row += 1;
        }
    }
}

} // verus!
