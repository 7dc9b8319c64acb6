//! The cipher engine: a Vigenère substitution whose key cursor advances on
//! every input character, letter or not.
use vstd::prelude::*;
use crate::text::{is_letter, is_upper, letter_index, letter_at, is_ascii_letter, is_ascii_upper, chars_of};

verus! {

/// The key character that lines up with position `i` of the text, if the
/// key has any characters at all.
pub open spec fn key_char_at(key: Seq<char>, i: int) -> Option<char> {
    if key.len() == 0 {
        None
    } else {
        Some(key[i % (key.len() as int)])
    }
}

/// The shift that a key character stands for, when it is a letter.
pub open spec fn active_shift(c: char, k: Option<char>) -> Option<int> {
    match k {
        Some(kc) => if is_letter(kc) && is_letter(c) {
            Some(letter_index(kc))
        } else {
            None
        },
        None => None,
    }
}

/// One character encoded under the key character of its position.
pub open spec fn encoded_char(c: char, k: Option<char>) -> char {
    match active_shift(c, k) {
        Some(s) => letter_at((letter_index(c) + s) % 26, is_upper(c)),
        None => c,
    }
}

/// One character decoded under the key character of its position.
pub open spec fn decoded_char(c: char, k: Option<char>) -> char {
    match active_shift(c, k) {
        Some(s) => letter_at((letter_index(c) - s) % 26, is_upper(c)),
        None => c,
    }
}

/// The encoding of `text` under `key`.
pub open spec fn encoded(text: Seq<char>, key: Seq<char>) -> Seq<char> {
    Seq::new(text.len(), |i: int| encoded_char(text[i], key_char_at(key, i)))
}

/// The decoding of `text` under `key`.
pub open spec fn decoded(text: Seq<char>, key: Seq<char>) -> Seq<char> {
    Seq::new(text.len(), |i: int| decoded_char(text[i], key_char_at(key, i)))
}

/// The shift of a key character that applies to `c`, or 0 when none does.
fn shift_for(c: char, k: Option<char>) -> (r: u8)
    ensures
        r < 26,
        active_shift(c, k) is Some ==> r as int == active_shift(c, k)->0,
        active_shift(c, k) is None ==> r == 0,
{
    match k {
        Some(kc) => {
            if is_ascii_letter(kc) && is_ascii_letter(c) {
                if is_ascii_upper(kc) {
                    (kc as u8) - ('A' as u8)
                } else {
                    (kc as u8) - ('a' as u8)
                }
            } else {
                0
            }
        },
        None => 0,
    }
}

/// Encodes one character under the key character of its position.
pub fn encode_char(c: char, k: Option<char>) -> (r: char)
    ensures
        r == encoded_char(c, k),
{
    let s = shift_for(c, k);
    if s == 0 || !is_ascii_letter(c) {
        proof {
            if active_shift(c, k) is Some {
                assert(letter_index(c) % 26 == letter_index(c));
            }
        }
        return c;
    }
    let base: u8 = if is_ascii_upper(c) { 'A' as u8 } else { 'a' as u8 };
    let x: u8 = (c as u8) - base;
    let y: u8 = (x + s) % 26;
    (base + y) as char
}

/// Decodes one character under the key character of its position.
pub fn decode_char(c: char, k: Option<char>) -> (r: char)
    ensures
        r == decoded_char(c, k),
{
    let s = shift_for(c, k);
    if s == 0 || !is_ascii_letter(c) {
        proof {
            if active_shift(c, k) is Some {
                assert(letter_index(c) % 26 == letter_index(c));
            }
        }
        return c;
    }
    let base: u8 = if is_ascii_upper(c) { 'A' as u8 } else { 'a' as u8 };
    let x: u8 = (c as u8) - base;
    let y: u8 = (x + 26 - s) % 26;
    proof {
        assert((x + 26 - s) % 26 == (x - s) % 26) by (nonlinear_arith)
            requires 0 <= x < 26, 0 < s < 26;
    }
    (base + y) as char
}

/// Encodes `input` under `key`. The key is read cyclically, one key character
/// for each input character; letters are shifted forward by the key letter's
/// position in the alphabet and keep their case, everything else stays.
pub fn vigenere_encode(input: &str, key: &str) -> (r: String)
    ensures
        r@ == encoded(input@, key@),
{
    let key_chars = chars_of(key);
    let n = key_chars.len();
    let text = chars_of(input);
    let mut out = String::new();
    for i in 0..text.len()
        invariant
            text@ == input@,
            key_chars@ == key@,
            n == key@.len(),
            out@ == encoded(input@, key@).take(i as int),
    {
        let k = if n == 0 { None } else { Some(key_chars[i % n]) };
        out.push(encode_char(text[i], k));
        assert(out@ =~= encoded(input@, key@).take(i + 1));
    }
    assert(out@ =~= encoded(input@, key@));
    out
}

/// Decodes `input` under `key`: the inverse of [`vigenere_encode`] for the
/// same key.
pub fn vigenere_decode(input: &str, key: &str) -> (r: String)
    ensures
        r@ == decoded(input@, key@),
{
    let key_chars = chars_of(key);
    let n = key_chars.len();
    let text = chars_of(input);
    let mut out = String::new();
    for i in 0..text.len()
        invariant
            text@ == input@,
            key_chars@ == key@,
            n == key@.len(),
            out@ == decoded(input@, key@).take(i as int),
    {
        let k = if n == 0 { None } else { Some(key_chars[i % n]) };
        out.push(decode_char(text[i], k));
        assert(out@ =~= decoded(input@, key@).take(i + 1));
    }
    assert(out@ =~= decoded(input@, key@));
    out
}

/// The letter at a position of the alphabet, in the case of `c`, is a letter
/// of that case and sits at that position.
proof fn lemma_letter_at(c: char, idx: int)
    requires
        is_letter(c),
        0 <= idx < 26,
    ensures
        is_letter(letter_at(idx, is_upper(c))),
        is_upper(letter_at(idx, is_upper(c))) == is_upper(c),
        letter_index(letter_at(idx, is_upper(c))) == idx,
{
}

/// Shifting one character and shifting it back gives the character again.
pub proof fn lemma_char_round_trip(c: char, k: Option<char>)
    ensures
        decoded_char(encoded_char(c, k), k) == c,
{
    if let Some(s) = active_shift(c, k) {
        let x = letter_index(c);
        let y = (x + s) % 26;
        assert(0 <= y < 26);
        lemma_letter_at(c, y);
        assert(((x + s) % 26 - s) % 26 == x) by (nonlinear_arith)
            requires 0 <= x < 26, 0 <= s < 26;
        if is_upper(c) {
            assert(letter_at(x, true) == c);
        } else {
            assert(letter_at(x, false) == c);
        }
    }
}

/// Decoding under a key undoes encoding under the same key, for every text
/// and every key.
pub proof fn lemma_round_trip(text: Seq<char>, key: Seq<char>)
    ensures
        decoded(encoded(text, key), key) == text,
{
    assert forall|i: int| 0 <= i < text.len() implies #[trigger] decoded(encoded(text, key), key)[i]
        == text[i] by {
        lemma_char_round_trip(text[i], key_char_at(key, i));
    }
    assert(decoded(encoded(text, key), key) =~= text);
}

/// Under the empty key both directions leave every text as it is.
pub proof fn lemma_empty_key_identity(text: Seq<char>)
    ensures
        encoded(text, Seq::empty()) == text,
        decoded(text, Seq::empty()) == text,
{
    assert(encoded(text, Seq::empty()) =~= text);
    assert(decoded(text, Seq::empty()) =~= text);
}

/// Each letter of the input comes out as a letter of the same case, in both
/// directions; the output is as long as the input.
pub proof fn lemma_case_preserved(text: Seq<char>, key: Seq<char>)
    ensures
        encoded(text, key).len() == text.len(),
        decoded(text, key).len() == text.len(),
        forall|i: int|
            0 <= i < text.len() && is_letter(text[i]) ==> is_letter(#[trigger] encoded(text, key)[i])
                && is_upper(encoded(text, key)[i]) == is_upper(text[i]),
        forall|i: int|
            0 <= i < text.len() && is_letter(text[i]) ==> is_letter(#[trigger] decoded(text, key)[i])
                && is_upper(decoded(text, key)[i]) == is_upper(text[i]),
{
    assert forall|i: int| 0 <= i < text.len() && is_letter(text[i]) implies is_letter(
        #[trigger] encoded(text, key)[i],
    ) && is_upper(encoded(text, key)[i]) == is_upper(text[i]) by {
        if let Some(s) = active_shift(text[i], key_char_at(key, i)) {
            lemma_letter_at(text[i], (letter_index(text[i]) + s) % 26);
        }
    }
    assert forall|i: int| 0 <= i < text.len() && is_letter(text[i]) implies is_letter(
        #[trigger] decoded(text, key)[i],
    ) && is_upper(decoded(text, key)[i]) == is_upper(text[i]) by {
        if let Some(s) = active_shift(text[i], key_char_at(key, i)) {
            lemma_letter_at(text[i], (letter_index(text[i]) - s) % 26);
        }
    }
}

/// Every character that is not an ASCII letter comes out unchanged at its
/// own position, in both directions.
pub proof fn lemma_non_letters_pass_through(text: Seq<char>, key: Seq<char>)
    ensures
        forall|i: int|
            0 <= i < text.len() && !is_letter(text[i]) ==> #[trigger] encoded(text, key)[i]
                == text[i],
        forall|i: int|
            0 <= i < text.len() && !is_letter(text[i]) ==> #[trigger] decoded(text, key)[i]
                == text[i],
{
}

} // verus!
