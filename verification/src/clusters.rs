//! Editing a line that is given as the list of its grapheme clusters.
//!
//! Offsets count clusters. The functions here take the clusters as they
//! are handed in, whatever cut them, and return text.

use vstd::prelude::*;
use vstd::math::min;
use vstd::seq_lib::lemma_flatten_concat;
use crate::graphemes::texts;

verus! {

/// The clusters from offset `from` up to, not including, offset `to`,
/// joined.
pub open spec fn joined(clusters: Seq<Seq<char>>, from: int, to: int) -> Seq<char> {
    clusters.subrange(from, to).flatten()
}

/// The clusters from `start` up to `end`, joined, after `end` is clamped
/// to the number of clusters and `start` to `end`.
pub open spec fn window(clusters: Seq<Seq<char>>, start: int, end: int) -> Seq<char> {
    let end = min(end, clusters.len() as int);
    let start = min(start, end);
    joined(clusters, start, end)
}

/// The clusters joined, with `c` in front of the cluster at offset `at`, or
/// behind them all where there is no such cluster.
pub open spec fn with_char(clusters: Seq<Seq<char>>, at: int, c: char) -> Seq<char> {
    let at = min(at, clusters.len() as int);
    joined(clusters, 0, at) + seq![c] + joined(clusters, at, clusters.len() as int)
}

/// The clusters joined, but for the one at offset `at`.
pub open spec fn without(clusters: Seq<Seq<char>>, at: int) -> Seq<char> {
    if at < clusters.len() {
        joined(clusters, 0, at) + joined(clusters, at + 1, clusters.len() as int)
    } else {
        clusters.flatten()
    }
}

/// The first `at` clusters, joined; all of them where there are fewer.
pub open spec fn front(clusters: Seq<Seq<char>>, at: int) -> Seq<char> {
    joined(clusters, 0, min(at, clusters.len() as int))
}

/// The clusters from offset `at` on, joined.
pub open spec fn back(clusters: Seq<Seq<char>>, at: int) -> Seq<char> {
    joined(clusters, min(at, clusters.len() as int), clusters.len() as int)
}

/// Two neighbouring runs of clusters, joined, are the run that spans both.
pub proof fn lemma_joined_split(clusters: Seq<Seq<char>>, from: int, mid: int, to: int)
    requires
        0 <= from <= mid <= to <= clusters.len(),
    ensures
        joined(clusters, from, mid) + joined(clusters, mid, to) == joined(clusters, from, to),
{
    lemma_flatten_concat(clusters.subrange(from, mid), clusters.subrange(mid, to));
    assert(clusters.subrange(from, mid) + clusters.subrange(mid, to) =~= clusters.subrange(
        from,
        to,
    ));
}

/// An empty run joins to nothing, and the run of all clusters to their
/// concatenation.
pub proof fn lemma_joined_ends(clusters: Seq<Seq<char>>, at: int)
    requires
        0 <= at <= clusters.len(),
    ensures
        joined(clusters, at, at) == Seq::<char>::empty(),
        joined(clusters, 0, clusters.len() as int) == clusters.flatten(),
{
    assert(clusters.subrange(at, at) =~= Seq::<Seq<char>>::empty());
    assert(clusters.subrange(0, clusters.len() as int) =~= clusters);
}

/// A run of one cluster joins to that cluster.
pub proof fn lemma_joined_one(clusters: Seq<Seq<char>>, at: int)
    requires
        0 <= at < clusters.len(),
    ensures
        joined(clusters, at, at + 1) == clusters[at],
{
    assert(clusters.subrange(at, at + 1) =~= Seq::<Seq<char>>::empty().push(clusters[at]));
    Seq::<Seq<char>>::empty().lemma_flatten_push(clusters[at]);
}

/// A character of a run of clusters is a character of the clusters.
pub proof fn lemma_joined_contains(clusters: Seq<Seq<char>>, from: int, to: int, ch: char)
    requires
        0 <= from <= to <= clusters.len(),
        joined(clusters, from, to).contains(ch),
    ensures
        clusters.flatten().contains(ch),
{
    let n = clusters.len() as int;
    lemma_joined_split(clusters, 0, from, to);
    lemma_joined_split(clusters, 0, to, n);
    lemma_joined_ends(clusters, 0);
    vstd::seq_lib::lemma_seq_concat_contains_all_elements(
        joined(clusters, 0, from),
        joined(clusters, from, to),
        ch,
    );
    vstd::seq_lib::lemma_seq_concat_contains_all_elements(
        joined(clusters, 0, to),
        joined(clusters, to, n),
        ch,
    );
}

/// Appends the strings `parts[from..to]` to `out`, in order.
pub fn push_clusters(out: &mut String, parts: &Vec<String>, from: usize, to: usize)
    requires
        from <= to <= parts.len(),
    ensures
        final(out)@ == old(out)@ + joined(texts(parts@), from as int, to as int),
{
    let mut i: usize = from;
    proof {
        lemma_joined_ends(texts(parts@), from as int);
    }
    while i < to
        invariant
            from <= i <= to <= parts.len(),
            out@ == old(out)@ + joined(texts(parts@), from as int, i as int),
        decreases to - i,
    {
        proof {
            lemma_joined_split(texts(parts@), from as int, i as int, i + 1);
            lemma_joined_one(texts(parts@), i as int);
        }
        out.append(parts[i].as_str());
        i += 1;
    }
}

/// The clusters `parts[start..end]` as one string, with `end` clamped to
/// the number of clusters and `start` to `end`.
pub fn render(parts: &Vec<String>, start: usize, end: usize) -> (shown: String)
    ensures
        shown@ == window(texts(parts@), start as int, end as int),
{
    let end = if end < parts.len() { end } else { parts.len() };
    let start = if start < end { start } else { end };
    let mut shown = String::new();
    push_clusters(&mut shown, parts, start, end);
    shown
}

/// The clusters as one string, with `c` in front of `parts[at]`, or at the
/// end where `at` is not below the number of clusters.
pub fn insert(parts: &Vec<String>, at: usize, c: char) -> (line: String)
    ensures
        line@ == with_char(texts(parts@), at as int, c),
{
    let at = if at < parts.len() { at } else { parts.len() };
    let mut line = String::new();
    push_clusters(&mut line, parts, 0, at);
    line.push(c);
    push_clusters(&mut line, parts, at, parts.len());
    line
}

/// The clusters as one string, but for `parts[at]`.
pub fn delete(parts: &Vec<String>, at: usize) -> (line: String)
    ensures
        line@ == without(texts(parts@), at as int),
{
    let mut line = String::new();
    if at < parts.len() {
        push_clusters(&mut line, parts, 0, at);
        push_clusters(&mut line, parts, at + 1, parts.len());
    } else {
        proof {
            lemma_joined_ends(texts(parts@), 0);
        }
        push_clusters(&mut line, parts, 0, parts.len());
    }
    line
}

/// The first `at` clusters as one string, and the others as a second.
pub fn split(parts: &Vec<String>, at: usize) -> (halves: (String, String))
    ensures
        halves.0@ == front(texts(parts@), at as int),
        halves.1@ == back(texts(parts@), at as int),
{
    let at = if at < parts.len() { at } else { parts.len() };
    let mut kept = String::new();
    push_clusters(&mut kept, parts, 0, at);
    let mut given = String::new();
    push_clusters(&mut given, parts, at, parts.len());
    (kept, given)
}

/// A window that starts at the first cluster and ends at or behind the last
/// shows all the clusters.
pub proof fn lemma_window_all(clusters: Seq<Seq<char>>, end: int)
    requires
        end >= clusters.len(),
    ensures
        window(clusters, 0, end) == clusters.flatten(),
{
    lemma_joined_ends(clusters, 0);
}

/// A window that starts at or behind its end, once the end is clamped,
/// shows nothing.
pub proof fn lemma_window_empty(clusters: Seq<Seq<char>>, start: int, end: int)
    requires
        0 <= end,
        start >= min(end, clusters.len() as int),
    ensures
        window(clusters, start, end) == Seq::<char>::empty(),
{
    lemma_joined_ends(clusters, min(end, clusters.len() as int));
}

/// What a split keeps and what it gives away, joined in that order, are
/// all the clusters.
pub proof fn lemma_front_back(clusters: Seq<Seq<char>>, at: int)
    requires
        0 <= at,
    ensures
        front(clusters, at) + back(clusters, at) == clusters.flatten(),
{
    let n = clusters.len() as int;
    lemma_joined_split(clusters, 0, min(at, n), n);
    lemma_joined_ends(clusters, 0);
}

/// Where `c` stands as a cluster of its own at offset `at`, the clusters
/// without that one join to the clusters before `c` was put there.
pub proof fn lemma_without_inserted(clusters: Seq<Seq<char>>, at: int, c: char)
    requires
        0 <= at <= clusters.len(),
    ensures
        without(clusters.insert(at, seq![c]), at) == clusters.flatten(),
{
    let n = clusters.len() as int;
    let wider = clusters.insert(at, seq![c]);
    assert(wider.subrange(0, at) =~= clusters.subrange(0, at));
    assert(wider.subrange(at + 1, n + 1) =~= clusters.subrange(at, n));
    lemma_joined_split(clusters, 0, at, n);
    lemma_joined_ends(clusters, 0);
}

} // verus!
