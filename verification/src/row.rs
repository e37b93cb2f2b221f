//! One line of text, addressed by grapheme clusters.

use vstd::prelude::*;
use vstd::utf8::encode_utf8;
use crate::clusters;
use crate::clusters::{
    back, front, joined, window, with_char, without, lemma_front_back, lemma_joined_contains,
    lemma_joined_ends, lemma_window_all, lemma_window_empty, lemma_without_inserted,
};
use crate::graphemes::{grapheme_clusters, partitions, clusters_of};

verus! {

/// The grapheme clusters of `text` are not empty and join to `text`. The
/// segmentation says so of each text that it has cut.
pub open spec fn segmented(text: Seq<char>) -> bool {
    partitions(grapheme_clusters(text), text)
}

/// The number of grapheme clusters of `text`.
pub open spec fn cluster_count(text: Seq<char>) -> int {
    grapheme_clusters(text).len() as int
}

/// What `Row::render` shows of a line that holds `text`.
pub open spec fn rendered(text: Seq<char>, start: int, end: int) -> Seq<char> {
    window(grapheme_clusters(text), start, end)
}

/// What a line that holds `text` holds after `Row::insert`.
pub open spec fn inserted(text: Seq<char>, at: int, c: char) -> Seq<char> {
    with_char(grapheme_clusters(text), at, c)
}

/// What a line that holds `text` holds after `Row::delete`.
pub open spec fn deleted(text: Seq<char>, at: int) -> Seq<char> {
    if at < cluster_count(text) {
        without(grapheme_clusters(text), at)
    } else {
        text
    }
}

/// What a line that holds `text` keeps in `Row::split`.
pub open spec fn head(text: Seq<char>, at: int) -> Seq<char> {
    front(grapheme_clusters(text), at)
}

/// What a line that holds `text` gives away in `Row::split`.
pub open spec fn tail(text: Seq<char>, at: int) -> Seq<char> {
    back(grapheme_clusters(text), at)
}

/// A line of text without its terminator, with the number of its grapheme
/// clusters kept beside it.
pub struct Row {
    string: String,
    len: usize,
}

impl View for Row {
    type V = Seq<char>;

    /// The content of the line.
    closed spec fn view(&self) -> Seq<char> {
        self.string@
    }
}

impl Default for Row {
    /// The empty line.
    fn default() -> (row: Row)
        ensures
            row.wf(),
            row@ == Seq::<char>::empty(),
            row.len() == 0,
    {
        let string = String::new();
        let len = clusters_of(string.as_str()).len();
        proof {
            lemma_empty_has_no_cluster(string@);
        }
        Row { string, len }
    }
}

impl From<&str> for Row {
    /// A line that holds `slice`.
    fn from(slice: &str) -> (row: Row)
        ensures
            row.wf(),
            row@ == slice@,
    {
        let len = clusters_of(slice).len();
        Row { string: slice.to_owned(), len }
    }
}

impl vstd::std_specs::convert::FromSpecImpl<&str> for Row {
    /// The conversion is described by the `ensures` of `from`: a line is
    /// more than its content, so that no value can be named here that the
    /// result is equal to.
    open spec fn obeys_from_spec() -> bool {
        false
    }

    /// Some well-formed line that holds `slice`.
    open spec fn from_spec(slice: &str) -> Row {
        choose|row: Row| row.wf() && row@ == slice@
    }
}

impl Row {
    /// The cluster count that the line keeps.
    pub closed spec fn spec_len(&self) -> usize {
        self.len
    }

    /// The count that the line keeps is the number of clusters of its
    /// content, and the clusters cut the content into non-empty pieces.
    pub open spec fn wf(&self) -> bool {
        &&& self.spec_len() == cluster_count(self@)
        &&& segmented(self@)
    }

    /// The clusters from offset `start` up to `end`, as one string.
    pub fn render(&self, start: usize, end: usize) -> (shown: String)
        ensures
            shown@ == rendered(self@, start as int, end as int),
    {
        let parts = clusters_of(self.string.as_str());
        clusters::render(&parts, start, end)
    }

    /// The number of grapheme clusters in the line.
    #[verifier::when_used_as_spec(spec_len)]
    pub fn len(&self) -> (n: usize)
        requires
            self.wf(),
        ensures
            n == cluster_count(self@),
            n == self.spec_len(),
    {
        self.len
    }

    /// Puts `c` in front of the cluster at offset `at`, or at the end of the
    /// line where `at` is not below the length. The length is counted anew:
    /// it has grown by one where `c` has become a cluster of its own
    /// between the clusters that were there.
    pub fn insert(&mut self, at: usize, c: char)
        requires
            old(self).wf(),
        ensures
            final(self).wf(),
            final(self)@ == inserted(old(self)@, at as int, c),
            at >= old(self).len() ==> final(self)@ == old(self)@.push(c),
            grapheme_clusters(final(self)@) == grapheme_clusters(old(self)@).insert(
                vstd::math::min(at as int, old(self).len() as int),
                seq![c],
            ) ==> final(self).len() == old(self).len() + 1,
    {
        if at >= self.len {
            proof {
                lemma_joined_ends(grapheme_clusters(self@), self.len as int);
            }
            self.string.push(c);
        } else {
            let parts = clusters_of(self.string.as_str());
            self.string = clusters::insert(&parts, at, c);
        }
        self.len = clusters_of(self.string.as_str()).len();
    }

    /// Removes the cluster at offset `at`, if there is one.
    pub fn delete(&mut self, at: usize)
        requires
            old(self).wf(),
        ensures
            final(self).wf(),
            final(self)@ == deleted(old(self)@, at as int),
    {
        if at >= self.len {
            return ;
        }
        let parts = clusters_of(self.string.as_str());
        self.string = clusters::delete(&parts, at);
        self.len = clusters_of(self.string.as_str()).len();
    }

    /// Puts the content of `next_row` behind the content of this line.
    pub fn append(&mut self, next_row: &Row)
        ensures
            final(self).wf(),
            final(self)@ == old(self)@ + next_row@,
    {
        self.string.append(next_row.string.as_str());
        self.len = clusters_of(self.string.as_str()).len();
    }

    /// Keeps the first `x` clusters in this line and returns the others as a
    /// line of their own. Where `x` is not below the length, the line keeps
    /// all it has and the line returned is empty.
    pub fn split(&mut self, x: usize) -> (rest: Row)
        requires
            old(self).wf(),
        ensures
            final(self).wf(),
            rest.wf(),
            final(self)@ == head(old(self)@, x as int),
            rest@ == tail(old(self)@, x as int),
            final(self)@ + rest@ == old(self)@,
            x >= old(self).len() ==> final(self)@ == old(self)@ && rest@ == Seq::<char>::empty(),
    {
        proof {
            lemma_front_back(grapheme_clusters(self@), x as int);
            lemma_joined_ends(grapheme_clusters(self@), self.len as int);
        }
        let parts = clusters_of(self.string.as_str());
        let (kept, given) = clusters::split(&parts, x);
        self.string = kept;
        self.len = clusters_of(self.string.as_str()).len();
        let len = clusters_of(given.as_str()).len();
        Row { string: given, len }
    }

    /// The content in UTF-8.
    pub fn as_bytes(&self) -> (bytes: &[u8])
        ensures
            bytes@ == encode_utf8(self@),
    {
        self.string.as_str().as_bytes()
    }
}

/// A text without characters has no cluster.
pub proof fn lemma_empty_has_no_cluster(text: Seq<char>)
    requires
        segmented(text),
        text.len() == 0,
    ensures
        cluster_count(text) == 0,
{
    let g = grapheme_clusters(text);
    if g.len() > 0 {
        assert(g.flatten() == g.first() + g.drop_first().flatten());
        assert(g[0].len() > 0);
    }
}

/// A window from the first cluster to the last or beyond shows the whole
/// line.
pub proof fn lemma_render_all(row: Row, end: int)
    requires
        row.wf(),
        end >= row.len(),
    ensures
        rendered(row@, 0, end) == row@,
{
    lemma_window_all(grapheme_clusters(row@), end);
}

/// A window whose start is not in front of its end, once the end is
/// clamped to the length, shows nothing.
pub proof fn lemma_render_empty(row: Row, start: int, end: int)
    requires
        row.wf(),
        0 <= end,
        start >= vstd::math::min(end, row.len() as int),
    ensures
        rendered(row@, start, end) == Seq::<char>::empty(),
{
    lemma_window_empty(grapheme_clusters(row@), start, end);
}

/// Inserting a character and then deleting at the same offset gives the
/// line back, where the character has become a cluster of its own at that
/// offset and the clusters around it are those of the line.
pub proof fn lemma_insert_then_delete(row: Row, at: int, c: char)
    requires
        row.wf(),
        0 <= at <= row.len(),
        grapheme_clusters(inserted(row@, at, c)) == grapheme_clusters(row@).insert(at, seq![c]),
    ensures
        deleted(inserted(row@, at, c), at) == row@,
        cluster_count(deleted(inserted(row@, at, c), at)) == row.len(),
{
    lemma_without_inserted(grapheme_clusters(row@), at, c);
}

/// An edit brings no character into a line but the one that is inserted.
pub proof fn lemma_edits_bring_no_char(row: Row, at: int, c: char, ch: char)
    requires
        row.wf(),
        0 <= at,
        !row@.contains(ch),
    ensures
        c != ch ==> !inserted(row@, at, c).contains(ch),
        !deleted(row@, at).contains(ch),
        !head(row@, at).contains(ch),
        !tail(row@, at).contains(ch),
{
    let g = grapheme_clusters(row@);
    let n = g.len() as int;
    let k = vstd::math::min(at, n);
    if joined(g, 0, k).contains(ch) {
        lemma_joined_contains(g, 0, k, ch);
    }
    if joined(g, k, n).contains(ch) {
        lemma_joined_contains(g, k, n, ch);
    }
    if at < n && joined(g, at + 1, n).contains(ch) {
        lemma_joined_contains(g, at + 1, n, ch);
    }
    vstd::seq_lib::lemma_seq_concat_contains_all_elements(joined(g, 0, k), seq![c], ch);
    vstd::seq_lib::lemma_seq_concat_contains_all_elements(
        joined(g, 0, k) + seq![c],
        joined(g, k, n),
        ch,
    );
    if seq![c].contains(ch) {
        assert(seq![c][0] == c);
    }
    if at < n {
        vstd::seq_lib::lemma_seq_concat_contains_all_elements(
            joined(g, 0, at),
            joined(g, at + 1, n),
            ch,
        );
    }
}

/// The head and the tail of a split, joined in that order, are the line.
pub proof fn lemma_split_then_append(row: Row, at: int)
    requires
        row.wf(),
        0 <= at,
    ensures
        head(row@, at) + tail(row@, at) == row@,
{
    lemma_front_back(grapheme_clusters(row@), at);
}

} // verus!
