//! Short identifiers: the compact text of a 64-bit number.

use vstd::prelude::*;
use vstd::arithmetic::div_mod::lemma_breakdown;
use crate::bindings::{base64url_alphabet, base64url_u64, pow64, sextet, uid_text};
use crate::repos::cache::is_derived_key;

verus! {

/// Length of every short identifier, in characters.
pub const SHORT_ID_LENGTH: usize = 11;

/// Whether `c` belongs to the URL-safe base64 alphabet.
pub open spec fn is_id_char(c: char) -> bool {
    ('A' <= c && c <= 'Z') || ('a' <= c && c <= 'z') || ('0' <= c && c <= '9') || c == '-' || c
        == '_'
}

/// Whether `id` has the shape of a short identifier.
pub open spec fn is_short_id(id: Seq<char>) -> bool {
    &&& id.len() == SHORT_ID_LENGTH
    &&& forall|i: int| 0 <= i < id.len() ==> is_id_char(#[trigger] id[i])
}

/// The short identifier that spells the number `uid`: the unpadded URL-safe
/// base64 text of its eight big-endian bytes.
///
/// The number of a new identifier is the clock in milliseconds, shifted left
/// by twenty bits, with twenty random bits below. Reading the clock and
/// drawing the random bits is left to the caller, who hands in the number.
pub fn short_id_text(uid: u64) -> (id: String)
    ensures
        id@ == base64url_u64(uid),
        is_short_id(id@),
{
    uid_text(uid)
}

/// The text of any 64-bit identifier number is a well-formed short
/// identifier.
pub proof fn lemma_uid_text_shape(uid: u64)
    ensures
        is_short_id(base64url_u64(uid)),
{
}

/// The character that stands for the six-bit value `n`, by the range it
/// falls in: capital letters, small letters, digits, then `-` and `_`.
pub open spec fn id_char(n: int) -> char {
    if n < 26 {
        (n + 65) as char
    } else if n < 52 {
        (n + 71) as char
    } else if n < 62 {
        (n - 4) as char
    } else if n == 62 {
        '-'
    } else {
        '_'
    }
}

/// The alphabet holds, for each six-bit value, the character of its range.
pub proof fn lemma_alphabet_by_range()
    ensures
        base64url_alphabet().len() == 64,
        forall|n: int| 0 <= n < 64 ==> #[trigger] base64url_alphabet()[n] == id_char(n),
{
}

/// The powers of 64 that the text of an identifier number is cut by, as
/// numbers, and the first power that exceeds every such text.
pub proof fn lemma_pow64_values()
    ensures
        pow64(0) == 1,
        pow64(1) == 64,
        pow64(2) == 4096,
        pow64(3) == 262144,
        pow64(4) == 16777216,
        pow64(5) == 1073741824,
        pow64(6) == 68719476736,
        pow64(7) == 4398046511104,
        pow64(8) == 281474976710656,
        pow64(9) == 18014398509481984,
        pow64(10) == 1152921504606846976,
        pow64(11) == 73786976294838206464,
{
    reveal_with_fuel(pow64, 12);
}

/// No character of the alphabet stands for two six-bit values.
pub proof fn lemma_char_spells_one_value(first: int, second: int)
    requires
        0 <= first < 64,
        0 <= second < 64,
        base64url_alphabet()[first] == base64url_alphabet()[second],
    ensures
        first == second,
{
    lemma_alphabet_by_range();
}

/// Two numbers whose lowest `count` digits to the base 64 agree leave the
/// same remainder when divided by 64 to the power `count`.
pub proof fn lemma_digits_fix_remainder(first: int, second: int, count: nat)
    requires
        0 <= first,
        0 <= second,
        forall|place: nat|
            place < count ==> (first / #[trigger] pow64(place)) % 64 == (second / pow64(place))
                % 64,
    ensures
        0 < pow64(count),
        first % pow64(count) == second % pow64(count),
    decreases count,
{
    if count > 0 {
        let below = (count - 1) as nat;
        lemma_digits_fix_remainder(first, second, below);
        assert((first / pow64(below)) % 64 == (second / pow64(below)) % 64);
        lemma_breakdown(first, pow64(below), 64);
        lemma_breakdown(second, pow64(below), 64);
        assert(pow64(count) == pow64(below) * 64);
    }
}

/// A short identifier spells one number only: two numbers with the same
/// text are the same number, so identifiers are as distinct as the numbers
/// they spell.
pub proof fn lemma_identifier_spells_one_number(first: u64, second: u64)
    requires
        base64url_u64(first) == base64url_u64(second),
    ensures
        first == second,
{
    let x = first as int * 4;
    let y = second as int * 4;
    assert forall|place: nat| place < 11 implies (x / #[trigger] pow64(place)) % 64 == (y / pow64(
        place,
    )) % 64 by {
        let i = 10 - place;
        assert(base64url_u64(first)[i] == base64url_alphabet()[sextet(first, i)]);
        assert(base64url_u64(second)[i] == base64url_alphabet()[sextet(second, i)]);
        lemma_pow64_positive(place);
        lemma_char_spells_one_value(sextet(first, i), sextet(second, i));
    }
    lemma_digits_fix_remainder(x, y, 11);
    lemma_pow64_values();
    assert(x % 73786976294838206464 == x);
    assert(y % 73786976294838206464 == y);
}

/// Every power of 64 is positive.
pub proof fn lemma_pow64_positive(n: nat)
    ensures
        0 < pow64(n),
    decreases n,
{
    if n > 0 {
        lemma_pow64_positive((n - 1) as nat);
    }
}

/// Short identifiers and derived cache keys never coincide, so the two
/// directions of the cache cannot answer for each other.
pub proof fn lemma_key_namespaces_disjoint(id: Seq<char>, key: Seq<char>)
    requires
        is_short_id(id),
        is_derived_key(key),
    ensures
        id != key,
{
}

} // verus!
