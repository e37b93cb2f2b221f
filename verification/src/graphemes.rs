//! Grapheme clusters of a text, as the `unicode-segmentation` crate finds them.
//!
//! Nothing in this file is proved: it is the boundary to code that the
//! verifier does not read.

use vstd::prelude::*;

verus! {

/// The extended grapheme clusters of `text`, in order: what
/// `unicode_segmentation::UnicodeSegmentation::graphemes(text, true)` yields.
pub uninterp spec fn grapheme_clusters(text: Seq<char>) -> Seq<Seq<char>>;

/// The texts of a sequence of strings.
pub open spec fn texts(parts: Seq<String>) -> Seq<Seq<char>> {
    Seq::new(parts.len(), |i: int| parts[i]@)
}

/// `parts` cuts `text` into pieces, none of them empty, that give `text`
/// back when they are joined in order.
pub open spec fn partitions(parts: Seq<Seq<char>>, text: Seq<char>) -> bool {
    &&& parts.flatten() == text
    &&& forall|i: int| 0 <= i < parts.len() ==> (#[trigger] parts[i]).len() > 0
}

/// Calls `unicode_segmentation::UnicodeSegmentation::graphemes` with
/// `is_extended` set, and copies each cluster into a `String`.
///
/// Trusted: the result is the segmentation that `grapheme_clusters` names,
/// and, as the iterator hands out consecutive slices between boundaries from
/// the start of the text to its end, the clusters are not empty and
/// concatenate to the text.
#[verifier::external_body]
pub(crate) fn clusters_of(text: &str) -> (parts: Vec<String>)
    ensures
        texts(parts@) == grapheme_clusters(text@),
        partitions(texts(parts@), text@),
{
    unicode_segmentation::UnicodeSegmentation::graphemes(text, true).map(String::from).collect()
}

} // verus!
