//! Text taken apart into what a reader sees as its letters.

use unicode_segmentation::UnicodeSegmentation;
use vstd::prelude::*;
use vstd::string::*;

verus! {

/// The grapheme clusters of `text`, in order, as `unicode_segmentation`
/// finds them: extended ones if `extended`, legacy ones if not.
pub uninterp spec fn grapheme_clusters(text: Seq<char>, extended: bool) -> Seq<Seq<char>>;

/// What each string of `parts` holds.
pub open spec fn texts(parts: Seq<String>) -> Seq<Seq<char>> {
    Seq::new(parts.len(), |i: int| parts[i]@)
}

/// The parts of `parts` in a row, a space behind each.
pub open spec fn spaced_text(parts: Seq<Seq<char>>) -> Seq<char>
    decreases parts.len(),
{
    if parts.len() == 0 {
        Seq::empty()
    } else {
        spaced_text(parts.drop_last()) + parts.last() + seq![' ']
    }
}

/// Splits `text` into its grapheme clusters with `unicode_segmentation`'s
/// `UnicodeSegmentation::graphemes`, and copies each into a string of its
/// own.
///
/// Believed, not proved: the clusters are a function of the text and of the
/// flag alone. That function has only a name here; where the boundaries fall
/// is the outside crate's knowledge.
#[verifier::external_body]
fn graphemes_of(text: &str, extended: bool) -> (clusters: Vec<String>)
    ensures
        texts(clusters@) == grapheme_clusters(text@, extended),
{
    text.graphemes(extended).map(String::from).collect()
}

/// Sets out `parts` in a row, a space behind each.
pub fn spaced(parts: &Vec<String>) -> (line: String)
    ensures
        line@ == spaced_text(texts(parts@)),
{
    let mut line = String::new();
    let mut at: usize = 0;
    while at < parts.len()
        invariant
            at <= parts@.len(),
            line@ == spaced_text(texts(parts@).take(at as int)),
        decreases parts@.len() - at,
    {
        proof {
            reveal_strlit(" ");
            let upto = texts(parts@).take(at + 1);
            assert(upto.drop_last() =~= texts(parts@).take(at as int));
            assert(upto.last() == parts@[at as int]@);
            assert(" "@ =~= seq![' ']);
        }
        line.append(parts[at].as_str());
        line.append(" ");
        at = at + 1;
    }
    assert(texts(parts@).take(parts@.len() as int) =~= texts(parts@));
    line
}

/// Spells `text` out: its extended grapheme clusters in a row, a space behind
/// each.
pub fn spell_out(text: &str) -> (line: String)
    ensures
        line@ == spaced_text(grapheme_clusters(text@, true)),
{
    let clusters = graphemes_of(text, true);
    spaced(&clusters)
}

} // verus!
