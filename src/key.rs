//! Reduction of raw key input to the canonical key: lower-case letters only.
use vstd::prelude::*;
use crate::text::{is_letter, is_lower, to_lower, is_ascii_letter, ascii_lower, chars_of};

verus! {

/// The canonical form of raw key input: its ASCII letters, in order,
/// lower-cased; everything else dropped.
pub open spec fn normalized(raw: Seq<char>) -> Seq<char>
    decreases raw.len(),
{
    if raw.len() == 0 {
        Seq::empty()
    } else {
        let rest = normalized(raw.drop_last());
        if is_letter(raw.last()) {
            rest.push(to_lower(raw.last()))
        } else {
            rest
        }
    }
}

/// A key made of lower-case letters only.
pub open spec fn is_canonical_key(key: Seq<char>) -> bool {
    forall|i: int| 0 <= i < key.len() ==> is_lower(#[trigger] key[i])
}

/// Normalized input is a canonical key, and a canonical key is its own
/// normal form.
pub proof fn lemma_normalized_canonical(raw: Seq<char>)
    ensures
        is_canonical_key(normalized(raw)),
        normalized(raw).len() <= raw.len(),
        is_canonical_key(raw) ==> normalized(raw) == raw,
    decreases raw.len(),
{
    if raw.len() > 0 {
        lemma_normalized_canonical(raw.drop_last());
        if is_canonical_key(raw) {
            assert(is_canonical_key(raw.drop_last()));
            assert(raw =~= raw.drop_last().push(raw.last()));
        }
    }
}

/// Normalizing twice gives what normalizing once gives.
pub proof fn lemma_normalize_idempotent(raw: Seq<char>)
    ensures
        normalized(normalized(raw)) == normalized(raw),
{
    lemma_normalized_canonical(raw);
    lemma_normalized_canonical(normalized(raw));
}

/// Turns raw key input into the canonical key: the ASCII letters of `raw`,
/// lower-cased, in order.
pub fn normalize_key(raw: &str) -> (r: String)
    ensures
        r@ == normalized(raw@),
        is_canonical_key(r@),
{
    let chars = chars_of(raw);
    let mut out = String::new();
    for i in 0..chars.len()
        invariant
            chars@ == raw@,
            out@ == normalized(raw@.take(i as int)),
    {
        assert(raw@.take(i + 1).drop_last() =~= raw@.take(i as int));
        let c = chars[i];
        if is_ascii_letter(c) {
            out.push(ascii_lower(c));
        }
    }
    assert(raw@.take(chars.len() as int) =~= raw@);
    proof {
        lemma_normalized_canonical(raw@);
    }
    out
}

} // verus!
