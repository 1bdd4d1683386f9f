//! Numbers of the language are single-precision IEEE-754 values, carried as
//! their 32-bit patterns. Everything that can be read off a pattern (sign,
//! zero, NaN, equality, order, negation) is decided here on integers. What
//! rounds (the four arithmetic operations, reading a numeral, printing a
//! number) is handed in by the caller as a function, and the contracts speak
//! of what that function computes.
use vstd::prelude::*;

verus! {

/// The pattern of the sign bit.
pub const SIGN_BIT: u32 = 0x8000_0000;

/// The pattern of positive infinity; every larger magnitude is a NaN.
pub const INFINITY_BITS: u32 = 0x7f80_0000;

/// The pattern with the sign bit cleared.
pub open spec fn magnitude(bits: u32) -> int {
    if bits >= SIGN_BIT {
        bits - SIGN_BIT
    } else {
        bits as int
    }
}

pub open spec fn is_negative(bits: u32) -> bool {
    bits >= SIGN_BIT
}

pub open spec fn is_nan(bits: u32) -> bool {
    magnitude(bits) > INFINITY_BITS
}

/// Both `+0.0` and `-0.0`.
pub open spec fn is_zero(bits: u32) -> bool {
    magnitude(bits) == 0
}

/// The place of a pattern that is no NaN on the number line: patterns of one
/// sign are ordered as their magnitudes are, and the two zeros share a place.
pub open spec fn ordinal(bits: u32) -> int {
    if is_negative(bits) {
        -magnitude(bits)
    } else {
        magnitude(bits)
    }
}

/// Numeric equality: no NaN equals anything, `+0.0` equals `-0.0`.
pub open spec fn same_number(a: u32, b: u32) -> bool {
    !is_nan(a) && !is_nan(b) && ordinal(a) == ordinal(b)
}

/// Numeric `<`: false whenever a NaN takes part.
pub open spec fn less_than(a: u32, b: u32) -> bool {
    !is_nan(a) && !is_nan(b) && ordinal(a) < ordinal(b)
}

/// Numeric `<=`: false whenever a NaN takes part.
pub open spec fn at_most(a: u32, b: u32) -> bool {
    !is_nan(a) && !is_nan(b) && ordinal(a) <= ordinal(b)
}

/// The pattern with the sign bit flipped.
pub open spec fn negated(bits: u32) -> u32 {
    if bits >= SIGN_BIT {
        (bits - SIGN_BIT) as u32
    } else {
        (bits + SIGN_BIT) as u32
    }
}

/// How numerals are read: the pattern for each numeral, or nothing where
/// the characters are none.
pub type NumberReader = spec_fn(Seq<char>) -> Option<u32>;

/// What the reader `parse` makes of a numeral, read off its own contract.
pub open spec fn reads<P: Fn(String) -> Option<u32>>(parse: &P) -> NumberReader {
    |text: Seq<char>| choose|out: Option<u32>| read(parse, text, out)
}

/// Whether `parse` may make `out` of the characters `text`.
pub open spec fn read<P: Fn(String) -> Option<u32>>(
    parse: &P,
    text: Seq<char>,
    out: Option<u32>,
) -> bool {
    exists|numeral: String| #[trigger] parse.ensures((numeral,), out) && numeral@ == text
}

/// Whether the reader accepts every text and its contract leaves it one
/// result for each sequence of characters.
pub open spec fn read_ready<P: Fn(String) -> Option<u32>>(parse: &P) -> bool {
    &&& forall|text: String| #[trigger] parse.requires((text,))
    &&& forall|a: String, b: String, x: Option<u32>, y: Option<u32>|
        a@ == b@ && #[trigger] parse.ensures((a,), x) && #[trigger] parse.ensures((b,), y) ==> x
            == y
}

/// What a ready reader has once made of a numeral is what it reads there.
pub proof fn lemma_reads<P: Fn(String) -> Option<u32>>(parse: &P, numeral: String, out: Option<u32>)
    requires
        read_ready(parse),
        parse.ensures((numeral,), out),
    ensures
        reads(parse)(numeral@) == out,
{
    assert(read(parse, numeral@, out));
    assert(read(parse, numeral@, reads(parse)(numeral@)));
}

/// Reads a numeral with `parse`.
pub fn number_read<P: Fn(String) -> Option<u32>>(numeral: String, parse: &P) -> (r: Option<u32>)
    requires
        read_ready(parse),
    ensures
        r == reads(parse)(numeral@),
{
    let ghost text = numeral@;
    let out = parse(numeral);
    assert(read(parse, text, out));
    assert(read(parse, text, reads(parse)(text)));
    out
}

/// How numbers are printed: the characters for each pattern.
pub type NumberText = spec_fn(u32) -> Seq<char>;

/// What the printer `show` prints, read off its own contract.
pub open spec fn shows<S: Fn(u32) -> String>(show: &S) -> NumberText {
    |bits: u32| choose|text: Seq<char>| printed(show, bits, text)
}

/// Whether `show` may print `text` for `bits`.
pub open spec fn printed<S: Fn(u32) -> String>(show: &S, bits: u32, text: Seq<char>) -> bool {
    exists|out: String| #[trigger] show.ensures((bits,), out) && out@ == text
}

/// Whether the printer accepts every pattern and its contract leaves it one
/// text for each.
pub open spec fn show_ready<S: Fn(u32) -> String>(show: &S) -> bool {
    forall|bits: u32|
        {
            &&& #[trigger] show.requires((bits,))
            &&& forall|a: String, b: String|
                show.ensures((bits,), a) && show.ensures((bits,), b) ==> a@ == b@
        }
}

/// What a ready printer has once printed for a number is what it shows
/// for it.
pub proof fn lemma_shows<S: Fn(u32) -> String>(show: &S, bits: u32, out: String)
    requires
        show_ready(show),
        show.ensures((bits,), out),
    ensures
        shows(show)(bits) == out@,
{
    assert(show.requires((bits,)));
    assert(printed(show, bits, out@));
    assert(printed(show, bits, shows(show)(bits)));
}

/// Prints a number with `show`.
pub fn number_text<S: Fn(u32) -> String>(bits: u32, show: &S) -> (r: String)
    requires
        show_ready(show),
    ensures
        r@ == shows(show)(bits),
{
    assert(show.requires((bits,)));
    let out = show(bits);
    assert(printed(show, bits, out@));
    assert(printed(show, bits, shows(show)(bits)));
    out
}

fn magnitude_of(bits: u32) -> (r: u32)
    ensures
        r == magnitude(bits),
{
    if bits >= SIGN_BIT {
        bits - SIGN_BIT
    } else {
        bits
    }
}

pub fn number_is_nan(bits: u32) -> (r: bool)
    ensures
        r == is_nan(bits),
{
    magnitude_of(bits) > INFINITY_BITS
}

pub fn number_is_zero(bits: u32) -> (r: bool)
    ensures
        r == is_zero(bits),
{
    magnitude_of(bits) == 0
}

pub fn number_negate(bits: u32) -> (r: u32)
    ensures
        r == negated(bits),
{
    if bits >= SIGN_BIT {
        bits - SIGN_BIT
    } else {
        bits + SIGN_BIT
    }
}

pub fn number_equal(a: u32, b: u32) -> (r: bool)
    ensures
        r == same_number(a, b),
{
    if number_is_nan(a) || number_is_nan(b) {
        false
    } else {
        a == b || (number_is_zero(a) && number_is_zero(b))
    }
}

pub fn number_less(a: u32, b: u32) -> (r: bool)
    ensures
        r == less_than(a, b),
{
    if number_is_nan(a) || number_is_nan(b) {
        false
    } else if a >= SIGN_BIT {
        if b >= SIGN_BIT {
            a > b
        } else {
            !(number_is_zero(a) && number_is_zero(b))
        }
    } else {
        b < SIGN_BIT && a < b
    }
}

pub fn number_at_most(a: u32, b: u32) -> (r: bool)
    ensures
        r == at_most(a, b),
{
    number_less(a, b) || number_equal(a, b)
}

/// Of two numbers that are no NaN exactly one holds: the first is less, they
/// are equal, or the second is less. `<=` is `<` or equality.
pub proof fn lemma_order(a: u32, b: u32)
    ensures
        at_most(a, b) == (less_than(a, b) || same_number(a, b)),
        !(less_than(a, b) && same_number(a, b)),
        !(less_than(a, b) && less_than(b, a)),
        !is_nan(a) && !is_nan(b) ==> less_than(a, b) || same_number(a, b) || less_than(b, a),
        is_nan(a) || is_nan(b) ==> !less_than(a, b) && !same_number(a, b) && !at_most(a, b),
{
}

/// Negating twice gives the pattern back, and negation mirrors the order.
pub proof fn lemma_negation(a: u32, b: u32)
    ensures
        negated(negated(a)) == a,
        is_nan(negated(a)) == is_nan(a),
        less_than(a, b) == less_than(negated(b), negated(a)),
{
}

} // verus!
