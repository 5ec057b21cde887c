//! The status bar: one line showing the mode, the file name and a
//! line/column indicator, padded apart and clipped to the bar's width.

use crate::render::{chars_to_symbols, clip, frame_write, Draw, Frame, FrameV};
use crate::row::chars_of;
use crate::ui::{sat_add, Color, Position, Rect};
use vstd::prelude::*;

verus! {

/// The decimal character of one digit value.
pub open spec fn digit_char(d: int) -> char {
    if d == 0 {
        '0'
    } else if d == 1 {
        '1'
    } else if d == 2 {
        '2'
    } else if d == 3 {
        '3'
    } else if d == 4 {
        '4'
    } else if d == 5 {
        '5'
    } else if d == 6 {
        '6'
    } else if d == 7 {
        '7'
    } else if d == 8 {
        '8'
    } else {
        '9'
    }
}

/// The decimal digits of a number, most significant first.
pub open spec fn dec_digits(n: int) -> Seq<char>
    decreases n,
{
    if n < 10 {
        seq![digit_char(n)]
    } else {
        dec_digits(n / 10).push(digit_char(n % 10))
    }
}

/// A run of spaces.
pub open spec fn spaces(n: int) -> Seq<char> {
    Seq::new(n as nat, |i: int| ' ')
}

/// The decimal character of one digit value.
fn exec_digit_char(d: usize) -> (r: char)
    requires
        d < 10,
    ensures
        r == digit_char(d as int),
{
    if d == 0 {
        '0'
    } else if d == 1 {
        '1'
    } else if d == 2 {
        '2'
    } else if d == 3 {
        '3'
    } else if d == 4 {
        '4'
    } else if d == 5 {
        '5'
    } else if d == 6 {
        '6'
    } else if d == 7 {
        '7'
    } else if d == 8 {
        '8'
    } else {
        '9'
    }
}

/// The decimal digits of a number, most significant first.
pub fn dec_chars(n: usize) -> (r: Vec<char>)
    ensures
        r@ == dec_digits(n as int),
    decreases n,
{
    if n < 10 {
        let mut v: Vec<char> = Vec::new();
        v.push(exec_digit_char(n));
        proof {
            assert(v@ =~= dec_digits(n as int));
        }
        v
    } else {
        let mut v = dec_chars(n / 10);
        v.push(exec_digit_char(n % 10));
        v
    }
}

/// The text of the status bar: the mode and file name on the left, the
/// line/column indicator on the right, pushed apart by spaces when the
/// bar is wide enough and clipped to the bar's width.
pub open spec fn status_text(
    mode: Seq<char>,
    file: Seq<char>,
    row: int,
    line_count: int,
    col: int,
    width: int,
) -> Seq<char> {
    let status = "Mode: ["@ + mode + "]    File: "@ + file;
    let indicator = "L: "@ + dec_digits(row) + "/"@ + dec_digits(line_count) + " C: "@
        + dec_digits(sat_add(col, 1));
    let padded = if width > status.len() + indicator.len() {
        status + spaces(width - status.len() - indicator.len())
    } else {
        status
    };
    clip(padded + indicator, width)
}

/// The one-line status bar at the bottom of the window.
pub struct StatusBar {
    pub area: Rect,
    pub mode: String,
    pub line_count: usize,
    pub cursor_position: Position,
    pub file_name: String,
}

/// The display symbols of a status bar with the given contents, one per
/// character.
pub open spec fn status_symbols(
    mode: Seq<char>,
    file: Seq<char>,
    row: int,
    line_count: int,
    col: int,
    width: int,
) -> Seq<Seq<char>> {
    status_text(mode, file, row, line_count, col, width).map_values(|c: char| seq![c])
}

impl Draw for StatusBar {
    /// The bar draws on any frame that is as wide as the bar and tall
    /// enough to hold its row.
    open spec fn fits(&self, area: Rect) -> bool {
        &&& self.area.position.row < area.height
        &&& self.area.width <= area.width
    }

    open spec fn renders(&self, before: FrameV, after: FrameV) -> bool {
        after == frame_write(
            before,
            self.area.position.row as int,
            status_symbols(
                self.mode@,
                self.file_name@,
                self.cursor_position.row as int,
                self.line_count as int,
                self.cursor_position.col as int,
                self.area.width as int,
            ),
            Color::Rgb(63, 63, 63),
            Color::Rgb(239, 239, 239),
        )
    }

    fn render_to(&self, frame: &mut Frame) {
        let mut status = chars_of("Mode: [");
        let mut mode_chars = chars_of(self.mode.as_str());
        status.append(&mut mode_chars);
        let mut mid = chars_of("]    File: ");
        status.append(&mut mid);
        let mut file_chars = chars_of(self.file_name.as_str());
        status.append(&mut file_chars);

        let mut indicator = chars_of("L: ");
        let mut row_chars = dec_chars(self.cursor_position.row);
        indicator.append(&mut row_chars);
        let mut slash = chars_of("/");
        indicator.append(&mut slash);
        let mut count_chars = dec_chars(self.line_count);
        indicator.append(&mut count_chars);
        let mut col_label = chars_of(" C: ");
        indicator.append(&mut col_label);
        let mut col_chars = dec_chars(self.cursor_position.col.saturating_add(1));
        indicator.append(&mut col_chars);

        let width = self.area.width;
        let pad = match status.len().checked_add(indicator.len()) {
            Some(total) => if width > total {
                width - total
            } else {
                0
            },
            None => 0,
        };
        let ghost unpadded = status@;
        proof {
            assert(status@ =~= unpadded + spaces(0));
        }
        let mut p: usize = 0;
        while p < pad
            invariant
                p <= pad,
                status@ == unpadded + spaces(p as int),
            decreases pad - p,
        {
            status.push(' ');
            proof {
                assert(status@ =~= unpadded + spaces(p + 1));
            }
            p += 1;
        }

        status.append(&mut indicator);
        let ghost full = status@;
        status.truncate(width);
        proof {
            assert(status@ =~= clip(full, width as int));
        }

        let symbols = chars_to_symbols(&status);
        proof {
            assert(status_symbols(
                self.mode@,
                self.file_name@,
                self.cursor_position.row as int,
                self.line_count as int,
                self.cursor_position.col as int,
                self.area.width as int,
            ) =~= symbols.deep_view());
        }
        frame.write_line(
            self.area.position.row,
            &symbols,
            Color::Rgb(63, 63, 63),
            Color::Rgb(239, 239, 239),
        );
    }
}

} // verus!
