use vstd::prelude::*;
use vstd::utf8::{decode_utf8, valid_utf8};
use crate::bytes::copy_range;

verus! {

/// The character for a decimal digit.
pub open spec fn digit_char(d: nat) -> char {
    seq!['0', '1', '2', '3', '4', '5', '6', '7', '8', '9'][d as int]
}

/// The decimal text of `n`, without sign or leading zeros.
pub open spec fn decimal_chars(n: nat) -> Seq<char>
    decreases n,
{
    if n < 10 {
        seq![digit_char(n)]
    } else {
        decimal_chars(n / 10).push(digit_char(n % 10))
    }
}

pub open spec fn is_digit(c: char) -> bool {
    '0' as u32 <= c as u32 <= '9' as u32
}

/// The value of a string of decimal digits.
pub open spec fn digits_value(s: Seq<char>) -> nat
    decreases s.len(),
{
    if s.len() == 0 {
        0
    } else {
        digits_value(s.drop_last()) * 10 + (s.last() as u32 - '0' as u32) as nat
    }
}

/// What parsing a `u32` from `s` gives: an optional `+`, then one or more decimal digits
/// whose value fits in 32 bits.
pub open spec fn parse_u32_spec(s: Seq<char>) -> Option<u32> {
    let d = if s.len() > 0 && s[0] == '+' {
        s.drop_first()
    } else {
        s
    };
    if d.len() > 0 && (forall|k: int| 0 <= k < d.len() ==> is_digit(#[trigger] d[k])) && digits_value(
        d,
    ) <= u32::MAX {
        Some(digits_value(d) as u32)
    } else {
        None
    }
}

/// `b` without its trailing zero bytes.
pub open spec fn trim_nuls(b: Seq<u8>) -> Seq<u8>
    decreases b.len(),
{
    if b.len() > 0 && b.last() == 0 {
        trim_nuls(b.drop_last())
    } else {
        b
    }
}

/// A fixed-width text field: the UTF-8 text before the trailing zero bytes, or empty text
/// where those bytes are not valid UTF-8.
pub open spec fn text_field(b: Seq<u8>) -> Seq<char> {
    let t = trim_nuls(b);
    if valid_utf8(t) {
        decode_utf8(t)
    } else {
        Seq::empty()
    }
}

/// Relies on `std::str::from_utf8`: it accepts exactly the valid UTF-8 byte strings and
/// decodes them.
#[verifier::external_body]
fn utf8_text(b: &[u8]) -> (r: Option<String>)
    ensures
        r is Some <==> valid_utf8(b@),
        r matches Some(s) ==> s@ == decode_utf8(b@),
{
    match std::str::from_utf8(b) {
        Ok(s) => Some(s.to_string()),
        Err(_) => None,
    }
}

/// Relies on `u32`'s `to_string`: the decimal digits of the value.
#[verifier::external_body]
pub(crate) fn decimal_text(n: u32) -> (r: String)
    ensures
        r@ == decimal_chars(n as nat),
{
    n.to_string()
}

/// Relies on `str::parse::<u32>`: an optional `+` and decimal digits that fit in 32 bits.
#[verifier::external_body]
pub(crate) fn parse_u32(s: &str) -> (r: Option<u32>)
    ensures
        r == parse_u32_spec(s@),
{
    s.parse::<u32>().ok()
}

/// Reads the text field `b[lo..hi]`.
pub fn read_text_field(b: &[u8], lo: usize, hi: usize) -> (r: String)
    requires
        lo <= hi <= b@.len(),
    ensures
        r@ == text_field(b@.subrange(lo as int, hi as int)),
{
    let mut e = hi;
    while e > lo && b[e - 1] == 0
        invariant
            lo <= e <= hi <= b@.len(),
            trim_nuls(b@.subrange(lo as int, e as int)) == trim_nuls(
                b@.subrange(lo as int, hi as int),
            ),
        decreases e,
    {
        assert(b@.subrange(lo as int, e as int).drop_last() =~= b@.subrange(
            lo as int,
            e - 1,
        ));
        e = e - 1;
    }
    let ghost kept = b@.subrange(lo as int, e as int);
    assert(trim_nuls(kept) == kept);
    let raw = copy_range(b, lo, e);
    match utf8_text(raw.as_slice()) {
        Some(s) => s,
        None => String::new(),
    }
}

} // verus!
