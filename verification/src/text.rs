//! Comparisons and a filter on string slices, stated over their sequences
//! of characters.

use vstd::prelude::*;
use vstd::std_specs::iter::IteratorSpec;
use vstd::string::*;

verus! {

/// Whether `text` begins with `prefix`, character by character.
///
/// Every string begins with the empty prefix and with itself.
pub fn starts_with(text: &str, prefix: &str) -> (found: bool)
    ensures
        found == prefix@.is_prefix_of(text@),
{
    let mut rest = text.chars();
    let mut wanted = prefix.chars();
    let ghost mut seen: int = 0;
    loop
        invariant
            0 <= seen <= prefix@.len(),
            seen <= text@.len(),
            rest.obeys_prophetic_iter_laws(),
            wanted.obeys_prophetic_iter_laws(),
            rest.remaining() == text@.skip(seen),
            wanted.remaining() == prefix@.skip(seen),
            text@.take(seen) == prefix@.take(seen),
        decreases prefix@.len() - seen,
    {
        match wanted.next() {
            None => {
                assert(prefix@.take(seen) == prefix@);
                return true;
            },
            Some(p) => {
                match rest.next() {
                    None => {
                        return false;
                    },
                    Some(t) => {
                        if p != t {
                            assert(text@[seen] != prefix@[seen]);
                            return false;
                        }
                        proof {
                            assert(text@.take(seen + 1) == text@.take(seen).push(text@[seen]));
                            assert(prefix@.take(seen + 1) == prefix@.take(seen).push(
                                prefix@[seen],
                            ));
                            seen = seen + 1;
                        }
                    },
                }
            },
        }
    }
}

/// Whether two string slices hold the same characters: each begins with
/// the other.
pub fn same_text(left: &str, right: &str) -> (same: bool)
    ensures
        same == (left@ == right@),
{
    let same = starts_with(left, right) && starts_with(right, left);
    assert(same ==> left@ =~= right@);
    same
}

/// The text without its blanks. Every other character stays, in its
/// place among the others.
///
/// Tokens are printed with blanks between them; this gives the text of a
/// type as the classifier reads it. Each character is fetched by its
/// index, which suits the short text of a type.
pub fn without_blanks(text: &str) -> (result: String)
    ensures
        result@ == text@.filter(|c: char| c != ' '),
{
    let length = text.unicode_len();
    let mut result = String::new();
    let mut i: usize = 0;
    assert(text@.take(0).filter(|c: char| c != ' ') == Seq::<char>::empty()) by {
        reveal(Seq::filter);
    }
    while i < length
        invariant
            0 <= i <= length,
            length == text@.len(),
            result@ == text@.take(i as int).filter(|c: char| c != ' '),
        decreases length - i,
    {
        let c = text.get_char(i);
        proof {
            reveal(Seq::filter);
            assert(text@.take(i + 1).drop_last() == text@.take(i as int));
            assert(text@.subrange(i as int, i + 1) == seq![text@[i as int]]);
        }
        if c != ' ' {
            result.append(text.substring_char(i, i + 1));
        }
        i = i + 1;
    }
    assert(text@.take(i as int) == text@);
    result
}

} // verus!
