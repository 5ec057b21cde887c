//! A single row of text within the editor, addressed by grapheme cluster.
//!
//! A `Row` holds its text as the list of extended grapheme clusters of the
//! string it was built from, so that every edit and length query works on
//! user-perceived characters rather than bytes or scalar values.

use unicode_segmentation::UnicodeSegmentation;
use vstd::prelude::*;
use vstd::string::StrSliceExecFns;

verus! {

/// The extended grapheme clusters of a string, in order. This names the
/// result of unicode-segmentation's `UnicodeSegmentation::graphemes`; the
/// segmentation itself depends only on the characters of the string.
pub uninterp spec fn clusters_of(s: Seq<char>) -> Seq<Seq<char>>;

/// Relies on unicode-segmentation's `UnicodeSegmentation::graphemes(true)`:
/// it yields the extended grapheme clusters of the string, in order, and an
/// empty string yields no clusters.
#[verifier::external_body]
fn split_clusters(s: &str) -> (r: Vec<String>)
    ensures
        r.deep_view() == clusters_of(s@),
        s@.len() == 0 ==> r@.len() == 0,
{
    s.graphemes(true).map(String::from).collect()
}

/// Relies on `String::push`: appends one character to the string.
#[verifier::external_body]
pub(crate) fn push_char(s: &mut String, ch: char)
    ensures
        final(s)@ == old(s)@.push(ch),
{
    s.push(ch);
}

/// The characters of a string, in order, as a vector.
pub(crate) fn chars_of(s: &str) -> (r: Vec<char>)
    ensures
        r@ == s@,
{
    let n = s.unicode_len();
    let mut r: Vec<char> = Vec::new();
    let mut i: usize = 0;
    while i < n
        invariant
            n == s@.len(),
            i <= n,
            r@ == s@.subrange(0, i as int),
        decreases n - i,
    {
        let c = s.get_char(i);
        r.push(c);
        proof {
            assert(r@ =~= s@.subrange(0, i + 1));
        }
        i += 1;
    }
    proof {
        assert(s@.subrange(0, s@.len() as int) =~= s@);
    }
    r
}

/// A tab cluster is displayed as a single space; any other cluster is
/// displayed as itself.
pub open spec fn tab_to_space(c: Seq<char>) -> Seq<char> {
    if c == seq!['\t'] {
        seq![' ']
    } else {
        c
    }
}

/// The clusters of the snippet `[start, end)`, clamped to the row length,
/// with tabs displayed as spaces.
pub open spec fn snippet_of(v: Seq<Seq<char>>, start: int, end: int) -> Seq<Seq<char>> {
    let e = if end > v.len() { v.len() as int } else { end };
    let s = if start > e { e } else { start };
    v.subrange(s, e).map_values(|c: Seq<char>| tab_to_space(c))
}

/// Pushing onto a vector pushes the view of the new element onto the
/// element-wise views of the vector.
pub(crate) proof fn lemma_views_push<T: DeepView>(pre: Seq<T>, post: Seq<T>, x: T)
    requires
        post == pre.push(x),
    ensures
        Seq::new(post.len(), |i: int| post[i].deep_view()) == Seq::new(
            pre.len(),
            |i: int| pre[i].deep_view(),
        ).push(x.deep_view()),
{
    assert(Seq::new(post.len(), |i: int| post[i].deep_view()) =~= Seq::new(
        pre.len(),
        |i: int| pre[i].deep_view(),
    ).push(x.deep_view()));
}

/// Inserting into a vector inserts the view of the new element into the
/// element-wise views of the vector.
pub(crate) proof fn lemma_views_insert<T: DeepView>(pre: Seq<T>, post: Seq<T>, x: T, at: int)
    requires
        0 <= at <= pre.len(),
        post == pre.insert(at, x),
    ensures
        Seq::new(post.len(), |i: int| post[i].deep_view()) == Seq::new(
            pre.len(),
            |i: int| pre[i].deep_view(),
        ).insert(at, x.deep_view()),
{
    assert(Seq::new(post.len(), |i: int| post[i].deep_view()) =~= Seq::new(
        pre.len(),
        |i: int| pre[i].deep_view(),
    ).insert(at, x.deep_view()));
}

/// Removing from a vector removes the same index from the element-wise
/// views of the vector.
pub(crate) proof fn lemma_views_remove<T: DeepView>(pre: Seq<T>, post: Seq<T>, at: int)
    requires
        0 <= at < pre.len(),
        post == pre.remove(at),
    ensures
        Seq::new(post.len(), |i: int| post[i].deep_view()) == Seq::new(
            pre.len(),
            |i: int| pre[i].deep_view(),
        ).remove(at),
{
    assert(Seq::new(post.len(), |i: int| post[i].deep_view()) =~= Seq::new(
        pre.len(),
        |i: int| pre[i].deep_view(),
    ).remove(at));
}

/// Replacing one element of a vector updates the same index of the
/// element-wise views of the vector.
pub(crate) proof fn lemma_views_update<T: DeepView>(pre: Seq<T>, post: Seq<T>, x: T, at: int)
    requires
        0 <= at < pre.len(),
        post == pre.update(at, x),
    ensures
        Seq::new(post.len(), |i: int| post[i].deep_view()) == Seq::new(
            pre.len(),
            |i: int| pre[i].deep_view(),
        ).update(at, x.deep_view()),
{
    assert(Seq::new(post.len(), |i: int| post[i].deep_view()) =~= Seq::new(
        pre.len(),
        |i: int| pre[i].deep_view(),
    ).update(at, x.deep_view()));
}

/// Taking a subrange of a vector takes the same subrange of the
/// element-wise views of the vector.
pub(crate) proof fn lemma_views_subrange<T: DeepView>(pre: Seq<T>, post: Seq<T>, a: int, b: int)
    requires
        0 <= a <= b <= pre.len(),
        post == pre.subrange(a, b),
    ensures
        Seq::new(post.len(), |i: int| post[i].deep_view()) == Seq::new(
            pre.len(),
            |i: int| pre[i].deep_view(),
        ).subrange(a, b),
{
    assert(Seq::new(post.len(), |i: int| post[i].deep_view()) =~= Seq::new(
        pre.len(),
        |i: int| pre[i].deep_view(),
    ).subrange(a, b));
}

/// A single row of text within the editor.
#[derive(Debug, PartialEq, Eq)]
pub struct Row {
    clusters: Vec<String>,
}

impl View for Row {
    type V = Seq<Seq<char>>;

    closed spec fn view(&self) -> Seq<Seq<char>> {
        self.clusters.deep_view()
    }
}

impl DeepView for Row {
    type V = Seq<Seq<char>>;

    open spec fn deep_view(&self) -> Seq<Seq<char>> {
        self.view()
    }
}

/// The row after inserting the character `ch` as a fresh cluster at index
/// `at`; an index past the end appends.
pub open spec fn row_insert(v: Seq<Seq<char>>, at: int, ch: char) -> Seq<Seq<char>> {
    if at >= v.len() {
        v.push(seq![ch])
    } else {
        v.insert(at, seq![ch])
    }
}

/// The row after deleting the cluster at index `at`; an index at or past
/// the end leaves the row unchanged.
pub open spec fn row_delete(v: Seq<Seq<char>>, at: int) -> Seq<Seq<char>> {
    if at >= v.len() {
        v
    } else {
        v.remove(at)
    }
}

impl Row {
    /// Build a Row from a string; the row then holds the string's grapheme
    /// clusters, in order.
    pub fn from(slice: &str) -> (r: Self)
        ensures
            r@ == clusters_of(slice@),
    {
        Self { clusters: split_clusters(slice) }
    }

    /// Convert the Row to a String allowing for a fixed length to be taken.
    /// Indices are clamped to the row length, and tabs display as spaces.
    pub fn to_string(&self, start: usize, end: usize) -> (r: String)
        ensures
            r@ == snippet_of(self@, start as int, end as int).flatten(),
    {
        let symbols = self.snippet(start, end);
        let mut result = String::new();
        let ghost target = snippet_of(self@, start as int, end as int);

        let mut i: usize = 0;
        while i < symbols.len()
            invariant
                symbols.deep_view() == target,
                i <= symbols@.len(),
                result@ == target.subrange(0, i as int).flatten(),
            decreases symbols@.len() - i,
        {
            proof {
                assert(target.subrange(0, i + 1) =~= target.subrange(0, i as int).push(
                    symbols.deep_view()[i as int],
                ));
                target.subrange(0, i as int).lemma_flatten_push(symbols.deep_view()[i as int]);
            }
            result.append(symbols[i].as_str());
            i += 1;
        }
        proof {
            assert(target.subrange(0, target.len() as int) =~= target);
        }
        result
    }

    /// The display clusters of the snippet `[start, end)`: indices are
    /// clamped to the row length and tabs become single spaces.
    pub fn snippet(&self, start: usize, end: usize) -> (r: Vec<String>)
        ensures
            r.deep_view() == snippet_of(self@, start as int, end as int),
    {
        let len = self.clusters.len();
        let e: usize = if end > len {
            len
        } else {
            end
        };
        let s: usize = if start > e {
            e
        } else {
            start
        };
        let ghost target = snippet_of(self@, start as int, end as int);
        let tab = String::from_str("\t");
        let space = String::from_str(" ");
        proof {
            reveal_strlit("\t");
            reveal_strlit(" ");
        }

        let mut result: Vec<String> = Vec::new();
        let mut i: usize = s;
        while i < e
            invariant
                s <= i <= e <= self.clusters@.len(),
                tab@ == seq!['\t'],
                space@ == seq![' '],
                target == self@.subrange(s as int, e as int).map_values(
                    |c: Seq<char>| tab_to_space(c),
                ),
                result.deep_view() == target.subrange(0, i - s),
            decreases e - i,
        {
            let ghost pre = result@;
            let c = &self.clusters[i];
            let display = if c.eq(&tab) {
                space.clone()
            } else {
                c.clone()
            };
            proof {
                assert(self@[i as int] == c@);
                assert(display@ == tab_to_space(self@[i as int]));
            }
            result.push(display);
            proof {
                lemma_views_push(pre, result@, display);
                assert(result.deep_view() =~= target.subrange(0, i + 1 - s));
            }
            i += 1;
        }
        proof {
            assert(target.subrange(0, e - s) =~= target);
        }
        result
    }

    /// Convert the full Row to a String.
    pub fn contents(&self) -> (r: String)
        ensures
            r@ == snippet_of(self@, 0, self@.len() as int).flatten(),
    {
        let r = self.to_string(0, self.len());
        r
    }

    /// Append another Row to the current Row.
    pub fn append(&mut self, new: &Self)
        ensures
            final(self)@ == old(self)@ + new@,
    {
        let mut i: usize = 0;
        while i < new.clusters.len()
            invariant
                i <= new.clusters@.len(),
                self@ == old(self)@ + new@.subrange(0, i as int),
            decreases new.clusters@.len() - i,
        {
            let ghost pre = self.clusters@;
            let x = new.clusters[i].clone();
            proof {
                assert(x@ == new@[i as int]);
            }
            self.clusters.push(x);
            proof {
                lemma_views_push(pre, self.clusters@, x);
                assert(self@ =~= old(self)@ + new@.subrange(0, i + 1));
            }
            i += 1;
        }
        proof {
            assert(old(self)@ + new@.subrange(0, new@.len() as int) =~= old(self)@ + new@);
        }
    }

    /// Delete the cluster at the given index. If the index is at or past the
    /// end of the Row then nothing happens.
    pub fn delete(&mut self, at: usize)
        ensures
            final(self)@ == row_delete(old(self)@, at as int),
    {
        if at >= self.clusters.len() {
            return ;
        }
        let ghost pre = self.clusters@;
        self.clusters.remove(at);
        proof {
            lemma_views_remove(pre, self.clusters@, at as int);
        }
    }

    /// Insert a character at the given position in the Row. If the index is
    /// at or past the end of the Row then the character is appended. The
    /// character always forms a cluster of its own, so the length always
    /// grows by exactly one.
    pub fn insert(&mut self, at: usize, ch: char)
        ensures
            final(self)@ == row_insert(old(self)@, at as int, ch),
            final(self)@.len() == old(self)@.len() + 1,
    {
        let mut single = String::new();
        push_char(&mut single, ch);
        proof {
            assert(single@ =~= seq![ch]);
        }
        let ghost pre = self.clusters@;
        if at >= self.clusters.len() {
            self.clusters.push(single);
            proof {
                lemma_views_push(pre, self.clusters@, single);
            }
        } else {
            self.clusters.insert(at, single);
            proof {
                lemma_views_insert(pre, self.clusters@, single, at as int);
            }
        }
    }

    /// Split the Row at the given position, returning a new Row with the
    /// second half of the split and truncating the current Row to the first
    /// half. An index past the end splits off an empty Row.
    pub fn split(&mut self, at: usize) -> (r: Self)
        ensures
            final(self)@ == old(self)@.subrange(0, spec_min(at as int, old(self)@.len() as int)),
            r@ == old(self)@.subrange(
                spec_min(at as int, old(self)@.len() as int),
                old(self)@.len() as int,
            ),
            old(self)@ == final(self)@ + r@,
    {
        let len = self.clusters.len();
        let cut: usize = if at > len {
            len
        } else {
            at
        };

        let mut tail: Vec<String> = Vec::new();
        let mut i: usize = cut;
        while i < len
            invariant
                cut <= i <= len == self.clusters@.len(),
                self@ == old(self)@,
                tail.deep_view() == self@.subrange(cut as int, i as int),
            decreases len - i,
        {
            let ghost pre = tail@;
            let x = self.clusters[i].clone();
            proof {
                assert(x@ == self@[i as int]);
            }
            tail.push(x);
            proof {
                lemma_views_push(pre, tail@, x);
                assert(tail.deep_view() =~= self@.subrange(cut as int, i + 1));
            }
            i += 1;
        }
        let ghost pre = self.clusters@;
        self.clusters.truncate(cut);
        proof {
            lemma_views_subrange(pre, self.clusters@, 0, cut as int);
            assert(old(self)@ =~= old(self)@.subrange(0, cut as int) + old(self)@.subrange(
                cut as int,
                old(self)@.len() as int,
            ));
        }
        Self { clusters: tail }
    }

    /// The length of the Row in grapheme clusters.
    pub fn len(&self) -> (r: usize)
        ensures
            r == self@.len(),
    {
        self.clusters.len()
    }

    /// The raw text of the Row, without the tab-to-space display conversion.
    pub fn raw_string(&self) -> (r: String)
        ensures
            r@ == self@.flatten(),
    {
        let mut result = String::new();
        let mut i: usize = 0;
        while i < self.clusters.len()
            invariant
                i <= self.clusters@.len(),
                result@ == self@.subrange(0, i as int).flatten(),
            decreases self.clusters@.len() - i,
        {
            proof {
                assert(self@.subrange(0, i + 1) =~= self@.subrange(0, i as int).push(
                    self@[i as int],
                ));
                self@.subrange(0, i as int).lemma_flatten_push(self@[i as int]);
            }
            result.append(self.clusters[i].as_str());
            i += 1;
        }
        proof {
            assert(self@.subrange(0, self@.len() as int) =~= self@);
        }
        result
    }

    /// Convert the Row to an array of bytes for writing: the UTF-8 encoding
    /// of the row's raw text.
    pub fn as_bytes(&self) -> (r: Vec<u8>)
        ensures
            r@ == vstd::utf8::encode_utf8(self@.flatten()),
    {
        let s = self.raw_string();
        let b = s.as_str().as_bytes();
        let mut r: Vec<u8> = Vec::new();
        let mut i: usize = 0;
        while i < b.len()
            invariant
                i <= b@.len(),
                r@ == b@.subrange(0, i as int),
            decreases b@.len() - i,
        {
            r.push(b[i]);
            proof {
                assert(r@ =~= b@.subrange(0, i + 1));
            }
            i += 1;
        }
        proof {
            assert(b@.subrange(0, b@.len() as int) =~= b@);
        }
        r
    }

    /// Returns `true` if this `Row` has a length of zero, and `false`
    /// otherwise.
    pub fn is_empty(&self) -> (r: bool)
        ensures
            r == (self@.len() == 0),
    {
        self.len() == 0
    }
}

impl Default for Row {
    /// An empty Row.
    fn default() -> (r: Self)
        ensures
            r@ == Seq::<Seq<char>>::empty(),
    {
        Row { clusters: Vec::new() }
    }
}

impl Clone for Row {
    fn clone(&self) -> (r: Self)
        ensures
            r@ == self@,
    {
        let mut clusters: Vec<String> = Vec::new();
        let mut i: usize = 0;
        while i < self.clusters.len()
            invariant
                i <= self.clusters@.len(),
                clusters.deep_view() == self@.subrange(0, i as int),
            decreases self.clusters@.len() - i,
        {
            let ghost pre = clusters@;
            let x = self.clusters[i].clone();
            proof {
                assert(x@ == self@[i as int]);
            }
            clusters.push(x);
            proof {
                lemma_views_push(pre, clusters@, x);
                assert(clusters.deep_view() =~= self@.subrange(0, i + 1));
            }
            i += 1;
        }
        proof {
            assert(self@.subrange(0, self@.len() as int) =~= self@);
        }
        Row { clusters }
    }
}

/// The smaller of two integers.
pub open spec fn spec_min(a: int, b: int) -> int {
    if a < b {
        a
    } else {
        b
    }
}

/// Splitting a row and appending the two halves again reconstructs the
/// original row content exactly.
pub proof fn lemma_split_append_round_trip(v: Seq<Seq<char>>, at: int)
    requires
        0 <= at,
    ensures
        v.subrange(0, spec_min(at, v.len() as int)) + v.subrange(
            spec_min(at, v.len() as int),
            v.len() as int,
        ) == v,
{
    assert(v.subrange(0, spec_min(at, v.len() as int)) + v.subrange(
        spec_min(at, v.len() as int),
        v.len() as int,
    ) =~= v);
}

/// Inserting always grows the row by exactly one cluster, and inserting at
/// the end of an empty row is the same as inserting at the start.
pub proof fn lemma_insert_grows_by_one(v: Seq<Seq<char>>, at: int, ch: char)
    requires
        0 <= at,
    ensures
        row_insert(v, at, ch).len() == v.len() + 1,
        v.len() == 0 ==> row_insert(v, at, ch) == row_insert(v, 0, ch),
{
    if v.len() == 0 {
        assert(row_insert(v, at, ch) =~= row_insert(v, 0, ch));
    }
}

} // verus!
