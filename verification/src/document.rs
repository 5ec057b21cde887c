//! The document model: an ordered sequence of rows with an optional
//! associated file name. Edits address a grapheme column within a row.

use crate::row::{
    clusters_of, lemma_views_push, lemma_views_update, row_delete, row_insert, spec_min, Row,
};
use crate::ui::Position;
use vstd::prelude::*;

verus! {

/// Raised when an edit addresses a row index beyond the document's length.
#[derive(Debug, Clone, Copy, PartialEq, Eq, Structural)]
pub struct OutOfRangeError;

/// The abstract state of a document: its optional file name and its rows,
/// each row a sequence of grapheme clusters.
pub struct DocumentV {
    pub file_name: Option<Seq<char>>,
    pub rows: Seq<Seq<Seq<char>>>,
}

pub struct Document {
    file_name: Option<String>,
    rows: Vec<Row>,
}

impl View for Document {
    type V = DocumentV;

    closed spec fn view(&self) -> DocumentV {
        DocumentV {
            file_name: match self.file_name {
                Some(ref s) => Some(s@),
                None => None,
            },
            rows: self.rows.deep_view(),
        }
    }
}

/// The rows after deleting at `(col, row)`: out of range is a no-op; a
/// delete at the end of a row that has a following row merges the two
/// rows; otherwise the cluster at `col` is deleted within the row.
pub open spec fn doc_delete(rows: Seq<Seq<Seq<char>>>, col: int, row: int) -> Seq<Seq<Seq<char>>> {
    if row >= rows.len() {
        rows
    } else if col == rows[row].len() && row < rows.len() - 1 {
        rows.update(row, rows[row] + rows[row + 1]).remove(row + 1)
    } else {
        rows.update(row, row_delete(rows[row], col))
    }
}

/// The rows after inserting `ch` at `(col, row)`, defined for `row` up to
/// and including the current number of rows: at the very end a new row is
/// appended holding just the character; otherwise the character is
/// inserted within the addressed row.
pub open spec fn doc_insert(
    rows: Seq<Seq<Seq<char>>>,
    col: int,
    row: int,
    ch: char,
) -> Seq<Seq<Seq<char>>> {
    if row == rows.len() {
        rows.push(seq![seq![ch]])
    } else {
        rows.update(row, row_insert(rows[row], col, ch))
    }
}

/// The rows after a line break at `(col, row)`: past the end is a no-op;
/// at the end an empty row is appended; otherwise the addressed row is
/// split at `col` and the tail becomes the next row.
pub open spec fn doc_insert_newline(
    rows: Seq<Seq<Seq<char>>>,
    col: int,
    row: int,
) -> Seq<Seq<Seq<char>>> {
    if row > rows.len() {
        rows
    } else if row == rows.len() {
        rows.push(Seq::empty())
    } else {
        let cut = spec_min(col, rows[row].len() as int);
        rows.update(row, rows[row].subrange(0, cut)).insert(
            row + 1,
            rows[row].subrange(cut, rows[row].len() as int),
        )
    }
}

/// The bytes written out for the rows: each row's raw text followed by a
/// newline.
pub open spec fn doc_bytes(rows: Seq<Seq<Seq<char>>>) -> Seq<u8>
    decreases rows.len(),
{
    if rows.len() == 0 {
        Seq::empty()
    } else {
        doc_bytes(rows.drop_last()) + vstd::utf8::encode_utf8(rows.last().flatten()) + seq![10u8]
    }
}

impl Document {
    /// Build a document from the lines of the named file, one row per
    /// line. A document is never empty: a file with no lines yields one
    /// empty row, as a fresh document has.
    pub fn from_lines(file_name: String, lines: Vec<String>) -> (r: Self)
        ensures
            r@.file_name == Some(file_name@),
            r@.rows.len() >= 1,
            lines@.len() == 0 ==> r@.rows == seq![Seq::<Seq<char>>::empty()],
            lines@.len() > 0 ==> r@.rows == lines.deep_view().map_values(
                |l: Seq<char>| clusters_of(l),
            ),
    {
        if lines.is_empty() {
            let mut rows: Vec<Row> = Vec::new();
            rows.push(Row::default());
            let r = Self { file_name: Some(file_name), rows };
            proof {
                assert(r@.rows =~= seq![Seq::<Seq<char>>::empty()]);
            }
            return r;
        }

        let ghost target = lines.deep_view().map_values(|l: Seq<char>| clusters_of(l));
        let mut rows: Vec<Row> = Vec::new();
        let mut i: usize = 0;
        while i < lines.len()
            invariant
                i <= lines@.len(),
                target == lines.deep_view().map_values(|l: Seq<char>| clusters_of(l)),
                rows.deep_view() == target.subrange(0, i as int),
            decreases lines@.len() - i,
        {
            let ghost pre = rows@;
            let row = Row::from(lines[i].as_str());
            proof {
                assert(lines.deep_view()[i as int] == lines@[i as int]@);
                assert(row.deep_view() == target[i as int]);
            }
            rows.push(row);
            proof {
                lemma_views_push(pre, rows@, row);
                assert(rows.deep_view() =~= target.subrange(0, i + 1));
            }
            i += 1;
        }
        proof {
            assert(target.subrange(0, target.len() as int) =~= target);
        }
        Self { file_name: Some(file_name), rows }
    }

    /// Record the new file name, if one was given, and hand back the name
    /// and byte contents to be written out; with no recorded name there is
    /// nothing to write.
    pub fn save(&mut self, filename: Option<String>) -> (r: Option<(String, Vec<u8>)>)
        ensures
            final(self)@.rows == old(self)@.rows,
            final(self)@.file_name == (match filename {
                Some(n) => Some(n@),
                None => old(self)@.file_name,
            }),
            match r {
                Some(target) => final(self)@.file_name == Some(target.0@) && target.1@ == doc_bytes(
                    final(self)@.rows,
                ),
                None => final(self)@.file_name is None,
            },
    {
        if let Some(name) = filename {
            self.file_name = Some(name);
        }
        match self.file_name {
            Some(ref name) => {
                let bytes = self.serialize();
                Some((name.clone(), bytes))
            },
            None => None,
        }
    }

    /// The bytes of the document as written to disk: each row followed by
    /// a newline.
    pub fn serialize(&self) -> (r: Vec<u8>)
        ensures
            r@ == doc_bytes(self@.rows),
    {
        let mut acc: Vec<u8> = Vec::new();
        let mut i: usize = 0;
        while i < self.rows.len()
            invariant
                i <= self.rows@.len(),
                acc@ == doc_bytes(self@.rows.subrange(0, i as int)),
            decreases self.rows@.len() - i,
        {
            let mut bytes = self.rows[i].as_bytes();
            acc.append(&mut bytes);
            acc.push(10u8);
            proof {
                let rows = self@.rows;
                assert(rows.subrange(0, i + 1).drop_last() =~= rows.subrange(0, i as int));
                assert(rows.subrange(0, i + 1).last() == rows[i as int]);
                assert(acc@ =~= doc_bytes(rows.subrange(0, i + 1)));
            }
            i += 1;
        }
        proof {
            assert(self@.rows.subrange(0, self@.rows.len() as int) =~= self@.rows);
        }
        acc
    }

    /// Delete at the given position. Out of range is a no-op; deleting at
    /// the end of a row that has a following row merges the two rows;
    /// otherwise the cluster at the column is deleted within the row.
    pub fn delete(&mut self, at: &Position)
        ensures
            final(self)@.rows == doc_delete(old(self)@.rows, at.col as int, at.row as int),
            final(self)@.file_name == old(self)@.file_name,
    {
        if at.row >= self.rows.len() {
            return ;
        }
        let row_len = self.rows[at.row].len();

        if at.col == row_len && at.row < self.rows.len() - 1 {
            let next_row = self.rows.remove(at.row + 1);
            let ghost mid = self.rows@;
            let row = &mut self.rows[at.row];
            row.append(&next_row);
            proof {
                lemma_views_update(mid, self.rows@, self.rows@[at.row as int], at.row as int);
                assert(self.rows.deep_view() =~= doc_delete(
                    old(self)@.rows,
                    at.col as int,
                    at.row as int,
                ));
            }
            return ;
        }

        let ghost pre = self.rows@;
        let row = &mut self.rows[at.row];
        row.delete(at.col);
        proof {
            lemma_views_update(pre, self.rows@, self.rows@[at.row as int], at.row as int);
            assert(self.rows.deep_view() =~= doc_delete(
                old(self)@.rows,
                at.col as int,
                at.row as int,
            ));
        }
    }

    /// Insert a character at the given position. A row index equal to the
    /// document length appends a new row holding just the character; a row
    /// index beyond that is rejected.
    pub fn insert(&mut self, at: &Position, ch: char) -> (r: Result<(), OutOfRangeError>)
        ensures
            r is Ok <==> at.row <= old(self)@.rows.len(),
            r is Ok ==> final(self)@.rows == doc_insert(
                old(self)@.rows,
                at.col as int,
                at.row as int,
                ch,
            ),
            r is Err ==> final(self)@.rows == old(self)@.rows,
            final(self)@.file_name == old(self)@.file_name,
    {
        if at.row == self.rows.len() {
            let mut row = Row::default();
            row.insert(0, ch);
            let ghost pre = self.rows@;
            self.rows.push(row);
            proof {
                lemma_views_push(pre, self.rows@, row);
                assert(row@ =~= seq![seq![ch]]);
                assert(self.rows.deep_view() =~= doc_insert(
                    old(self)@.rows,
                    at.col as int,
                    at.row as int,
                    ch,
                ));
            }
            Ok(())
        } else if at.row < self.rows.len() {
            let ghost pre = self.rows@;
            let row = &mut self.rows[at.row];
            row.insert(at.col, ch);
            proof {
                lemma_views_update(pre, self.rows@, self.rows@[at.row as int], at.row as int);
                assert(self.rows.deep_view() =~= doc_insert(
                    old(self)@.rows,
                    at.col as int,
                    at.row as int,
                    ch,
                ));
            }
            Ok(())
        } else {
            Err(OutOfRangeError)
        }
    }

    /// Insert a line break at the given position: the addressed row is
    /// split at the column and the tail becomes the following row. At the
    /// end of the document an empty row is appended; past the end nothing
    /// happens.
    pub fn insert_newline(&mut self, at: &Position)
        ensures
            final(self)@.rows == doc_insert_newline(old(self)@.rows, at.col as int, at.row as int),
            final(self)@.file_name == old(self)@.file_name,
    {
        if at.row > self.rows.len() {
            return ;
        }

        if at.row == self.rows.len() {
            let ghost pre = self.rows@;
            let empty = Row::default();
            self.rows.push(empty);
            proof {
                lemma_views_push(pre, self.rows@, empty);
                assert(self.rows.deep_view() =~= doc_insert_newline(
                    old(self)@.rows,
                    at.col as int,
                    at.row as int,
                ));
            }
            return ;
        }

        let ghost pre = self.rows@;
        let row = &mut self.rows[at.row];
        let new_row = row.split(at.col);
        proof {
            lemma_views_update(pre, self.rows@, self.rows@[at.row as int], at.row as int);
        }
        let ghost mid = self.rows@;
        self.rows.insert(at.row + 1, new_row);
        proof {
            crate::row::lemma_views_insert(mid, self.rows@, new_row, at.row + 1);
            assert(self.rows.deep_view() =~= doc_insert_newline(
                old(self)@.rows,
                at.col as int,
                at.row as int,
            ));
        }
    }

    /// The document's recorded file name, if any.
    pub fn file_name(&self) -> (r: Option<&String>)
        ensures
            match r {
                Some(s) => self@.file_name == Some(s@),
                None => self@.file_name is None,
            },
    {
        self.file_name.as_ref()
    }

    /// The row at the given index, if there is one.
    pub fn row(&self, index: usize) -> (r: Option<&Row>)
        ensures
            match r {
                Some(rw) => index < self@.rows.len() && rw@ == self@.rows[index as int],
                None => index >= self@.rows.len(),
            },
    {
        if index < self.rows.len() {
            Some(&self.rows[index])
        } else {
            None
        }
    }

    /// The number of rows in the document.
    pub fn len(&self) -> (r: usize)
        ensures
            r == self@.rows.len(),
    {
        self.rows.len()
    }
}

impl Default for Document {
    /// A fresh document: exactly one empty row and no file name.
    fn default() -> (r: Self)
        ensures
            r@.file_name is None,
            r@.rows =~= seq![Seq::<Seq<char>>::empty()],
    {
        let mut rows: Vec<Row> = Vec::new();
        rows.push(Row::default());
        Self { file_name: None, rows }
    }
}


/// A delete addressed past the document's rows changes nothing.
pub proof fn lemma_delete_past_end(rows: Seq<Seq<Seq<char>>>, col: int, row: int)
    requires
        row >= rows.len(),
    ensures
        doc_delete(rows, col, row) == rows,
{
}

/// A delete at the end of a row that has a following row merges the two
/// rows and reduces the row count by exactly one.
pub proof fn lemma_delete_merges_rows(rows: Seq<Seq<Seq<char>>>, row: int)
    requires
        0 <= row < rows.len() - 1,
    ensures
        doc_delete(rows, rows[row].len() as int, row).len() == rows.len() - 1,
        doc_delete(rows, rows[row].len() as int, row)[row] == rows[row] + rows[row + 1],
{
}

} // verus!
