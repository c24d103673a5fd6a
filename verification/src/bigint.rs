//! Identifier codec.
//!
//! Identifiers cross the host boundary as integers of unbounded precision,
//! held as a sign and a list of 64-bit words, least significant word first.
//! The platform itself speaks in unsigned 64-bit identifiers. This module
//! converts between the two and says exactly when the inward direction loses
//! information.
//!
//! The boundary's integers are those of `napi`, and the two conversions are
//! made by `napi`'s own functions. What is stated and proved here is what
//! they mean for the integer that the words stand for.

use vstd::prelude::*;

verus! {

/// The number of values of one word: two to the power sixty-four.
pub open spec fn word_base() -> int {
    0x1_0000_0000_0000_0000
}

/// The natural number that a list of words stands for, least significant
/// word first: `words[0] + words[1] * 2^64 + words[2] * 2^128 + ...`.
pub open spec fn magnitude(words: Seq<u64>) -> nat
    decreases words.len(),
{
    if words.len() == 0 {
        0
    } else {
        (words[0] as nat) + 0x1_0000_0000_0000_0000 * magnitude(words.drop_first())
    }
}

/// An integer of unbounded precision in sign-and-magnitude form.
///
/// The integer is `(-1)^sign_bit * (words[0] + words[1] * 2^64 + ...)`.
/// Every combination of fields is a valid value; an empty word list stands
/// for zero, and so does any list of zero words under either sign.
#[derive(Debug, PartialEq, Eq)]
pub struct BigInt {
    /// `true` for negative numbers.
    pub sign_bit: bool,
    /// The magnitude, least significant word first.
    pub words: Vec<u64>,
}

/// The mathematical content of a [`BigInt`]: its sign and its words.
pub struct BigIntView {
    pub sign_bit: bool,
    pub words: Seq<u64>,
}

impl BigIntView {
    /// The absolute value.
    pub open spec fn magnitude(self) -> nat {
        magnitude(self.words)
    }

    /// The integer that this representation stands for.
    pub open spec fn value(self) -> int {
        if self.sign_bit {
            -(self.magnitude() as int)
        } else {
            self.magnitude() as int
        }
    }

    /// The low 64 bits of the magnitude. The sign plays no part in it.
    pub open spec fn low_word(self) -> u64 {
        (self.magnitude() % 0x1_0000_0000_0000_0000) as u64
    }

    /// Whether the integer is an unsigned 64-bit value, so that taking its
    /// low word loses nothing.
    pub open spec fn fits_u64(self) -> bool {
        0 <= self.value() < word_base()
    }
}

/// The representation that [`decode`] gives to a platform identifier: no
/// sign, one word.
pub open spec fn decoded(id: u64) -> BigIntView {
    BigIntView { sign_bit: false, words: seq![id] }
}

impl View for BigInt {
    type V = BigIntView;

    open spec fn view(&self) -> BigIntView {
        BigIntView { sign_bit: self.sign_bit, words: self.words@ }
    }
}

/// The first word of a non-empty list is its magnitude modulo `2^64`.
pub proof fn lemma_magnitude_split(words: Seq<u64>)
    requires
        words.len() > 0,
    ensures
        magnitude(words) % 0x1_0000_0000_0000_0000 == words[0],
{
    let w: int = words[0] as int;
    let m: int = magnitude(words.drop_first()) as int;
    assert(magnitude(words) == w + 0x1_0000_0000_0000_0000 * m);
    assert((w + 0x1_0000_0000_0000_0000 * m) % 0x1_0000_0000_0000_0000 == w) by (nonlinear_arith)
        requires
            0 <= w < 0x1_0000_0000_0000_0000,
            0 <= m,
    ;
}

/// A list of words stands for zero exactly when every word is zero.
pub proof fn lemma_magnitude_zero(words: Seq<u64>)
    ensures
        magnitude(words) == 0 <==> (forall|i: int| 0 <= i < words.len() ==> words[i] == 0),
    decreases words.len(),
{
    if words.len() > 0 {
        let rest = words.drop_first();
        lemma_magnitude_zero(rest);
        let m: int = magnitude(rest) as int;
        assert(0x1_0000_0000_0000_0000 * m == 0 <==> m == 0) by (nonlinear_arith);
        assert(0x1_0000_0000_0000_0000 * m >= 0) by (nonlinear_arith)
            requires
                m >= 0,
        ;
        if magnitude(words) == 0 {
            assert forall|i: int| 0 <= i < words.len() implies words[i] == 0 by {
                if i > 0 {
                    assert(rest[i - 1] == words[i]);
                }
            }
        }
        if forall|i: int| 0 <= i < words.len() ==> words[i] == 0 {
            assert forall|i: int| 0 <= i < rest.len() implies rest[i] == 0 by {
                assert(rest[i] == words[i + 1]);
            }
        }
    }
}

/// A list of words stands for a number below `2^64` exactly when every word
/// after the first is zero.
pub proof fn lemma_magnitude_fits(words: Seq<u64>)
    ensures
        magnitude(words) < word_base() <==> (forall|i: int| 1 <= i < words.len() ==> words[i] == 0),
{
    if words.len() > 0 {
        let rest = words.drop_first();
        lemma_magnitude_zero(rest);
        let w: int = words[0] as int;
        let m: int = magnitude(rest) as int;
        assert(w + 0x1_0000_0000_0000_0000 * m < 0x1_0000_0000_0000_0000 <==> m == 0)
            by (nonlinear_arith)
            requires
                0 <= w < 0x1_0000_0000_0000_0000,
                0 <= m,
        ;
        if forall|i: int| 0 <= i < rest.len() ==> rest[i] == 0 {
            assert forall|i: int| 1 <= i < words.len() implies words[i] == 0 by {
                assert(rest[i - 1] == words[i]);
            }
        }
        if forall|i: int| 1 <= i < words.len() ==> words[i] == 0 {
            assert forall|i: int| 0 <= i < rest.len() implies rest[i] == 0 by {
                assert(rest[i] == words[i + 1]);
            }
        }
    }
}

/// A single word stands for itself.
pub proof fn lemma_magnitude_single(id: u64)
    ensures
        magnitude(seq![id]) == id,
        decoded(id).value() == id,
        decoded(id).low_word() == id,
        decoded(id).fits_u64(),
{
    let s = seq![id];
    assert(s.drop_first() =~= Seq::<u64>::empty());
    assert(magnitude(s.drop_first()) == 0);
    assert(magnitude(s) == (s[0] as nat) + 0x1_0000_0000_0000_0000 * magnitude(s.drop_first()));
}

impl BigInt {
    /// Whether the integer is an unsigned 64-bit value: not negative, and
    /// with nothing but zeros after its first word. For such an integer, and
    /// for no other, [`encode`] loses nothing.
    pub fn fits_u64(&self) -> (fits: bool)
        ensures
            fits == self@.fits_u64(),
    {
        let n = self.words.len();
        let mut high_zero = true;
        let mut i: usize = 1;
        while i < n
            invariant
                n == self.words.len(),
                1 <= i,
                high_zero <==> (forall|k: int| 1 <= k < i && k < n ==> self.words@[k] == 0),
            decreases n - i,
        {
            if self.words[i] != 0 {
                high_zero = false;
            }
            i += 1;
        }
        let low_zero = n == 0 || self.words[0] == 0;
        proof {
            let words = self.words@;
            lemma_magnitude_fits(words);
            lemma_magnitude_zero(words);
            if high_zero && low_zero {
                assert forall|k: int| 0 <= k < words.len() implies words[k] == 0 by {}
            }
        }
        high_zero && (!self.sign_bit || low_zero)
    }
}

/// `napi::bindgen_prelude::BigInt::get_u64`, on a value of the same sign and
/// words.
///
/// As its source has it, the method gives the sign bit, the first word, and
/// a flag that is set where the value has no sign and exactly one word. It
/// reads the first word without looking whether there is one, so a value
/// without words is kept away from it.
#[verifier::external_body]
fn napi_get_u64(value: &BigInt) -> (read: (bool, u64, bool))
    requires
        value.words@.len() > 0,
    ensures
        read.0 == value.sign_bit,
        read.1 == value.words@[0],
        read.2 == (!value.sign_bit && value.words@.len() == 1),
{
    let boundary = napi::bindgen_prelude::BigInt {
        sign_bit: value.sign_bit,
        words: value.words.clone(),
    };
    boundary.get_u64()
}

/// `napi::bindgen_prelude::BigInt::from` for a `u64`.
///
/// As its source has it, the result has no sign and the one word given.
#[verifier::external_body]
fn napi_from_u64(id: u64) -> (value: BigInt)
    ensures
        !value.sign_bit,
        value.words@ == seq![id],
{
    let boundary = napi::bindgen_prelude::BigInt::from(id);
    BigInt { sign_bit: boundary.sign_bit, words: boundary.words }
}

/// Converts an identifier from the host's representation to the platform's.
///
/// The result is the low 64 bits of the magnitude. An integer outside the
/// unsigned 64-bit range is not rejected: it loses its sign and its higher
/// words. [`BigInt::fits_u64`] tells beforehand whether that will happen.
pub fn encode(external: &BigInt) -> (id: u64)
    ensures
        id == external@.low_word(),
        external@.fits_u64() ==> id == external@.value(),
{
    proof {
        if external.words@.len() > 0 {
            lemma_magnitude_split(external.words@);
        }
        if external@.fits_u64() {
            assert(external@.magnitude() % 0x1_0000_0000_0000_0000 == external@.magnitude())
                by (nonlinear_arith)
                requires
                    0 <= external@.magnitude() < 0x1_0000_0000_0000_0000,
            ;
        }
    }
    if external.words.len() == 0 {
        0
    } else {
        napi_get_u64(external).1
    }
}

/// Converts a platform identifier to the host's representation. Nothing is
/// lost: the result stands for exactly `id`.
pub fn decode(id: u64) -> (external: BigInt)
    ensures
        external@ == decoded(id),
        external@.value() == id,
{
    let external = napi_from_u64(id);
    proof {
        lemma_magnitude_single(id);
    }
    external
}

/// **Round trip.** An integer that fits in 64 unsigned bits survives the
/// way in and back out: decoding what [`encode`] gave stands for the same
/// integer. Where the integer was written without a sign and with one word,
/// as [`decode`] writes, it comes back letter for letter.
pub proof fn law_round_trip(x: BigIntView)
    requires
        x.fits_u64(),
    ensures
        decoded(x.low_word()).value() == x.value(),
        !x.sign_bit && x.words.len() == 1 ==> decoded(x.low_word()) == x,
{
    lemma_magnitude_single(x.low_word());
    assert(x.magnitude() % 0x1_0000_0000_0000_0000 == x.magnitude()) by (nonlinear_arith)
        requires
            0 <= x.magnitude() < 0x1_0000_0000_0000_0000,
    ;
    if !x.sign_bit && x.words.len() == 1 {
        lemma_magnitude_split(x.words);
        assert(decoded(x.low_word()).words =~= x.words);
    }
}

/// **Lossless outward.** Every platform identifier survives the way out and
/// back in unchanged.
pub proof fn law_decode_is_lossless(id: u64)
    ensures
        decoded(id).fits_u64(),
        decoded(id).low_word() == id,
{
    lemma_magnitude_single(id);
}

/// **Truncation inward.** Encoding looks at the magnitude alone: an integer
/// and its negation have the same image, which is the magnitude reduced
/// modulo `2^64`.
pub proof fn law_encode_truncates(x: BigIntView)
    ensures
        0 <= x.low_word() < word_base(),
        (x.magnitude() - x.low_word()) % word_base() == 0,
        x.low_word() == (BigIntView { sign_bit: !x.sign_bit, words: x.words }).low_word(),
{
    let m: int = x.magnitude() as int;
    assert(0 <= m % 0x1_0000_0000_0000_0000 < 0x1_0000_0000_0000_0000 && (m - m
        % 0x1_0000_0000_0000_0000) % 0x1_0000_0000_0000_0000 == 0) by (nonlinear_arith)
        requires
            0 <= m,
    ;
}

} // verus!
