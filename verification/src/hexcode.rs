//! Hexadecimal names, decoded two digits to a byte.
//!
//! Entry names in the object store are hexadecimal; this module states what a
//! name decodes to and proves the decoder against that statement: odd length
//! is rejected first, then the first byte that is not a hex digit.

use vstd::prelude::*;

use crate::errors::HexDecodeError;

verus! {

/// The byte is an ASCII hexadecimal digit: `0-9`, `a-f` or `A-F`.
pub open spec fn is_hex_digit(b: u8) -> bool {
    (48 <= b && b <= 57) || (97 <= b && b <= 102) || (65 <= b && b <= 70)
}

/// The numeric value of a hexadecimal digit byte.
pub open spec fn hex_digit_value(b: u8) -> u8
    recommends
        is_hex_digit(b),
{
    if 48 <= b && b <= 57 {
        (b - 48) as u8
    } else if 97 <= b && b <= 102 {
        (b - 97 + 10) as u8
    } else {
        (b - 65 + 10) as u8
    }
}

/// The name decodes as hexadecimal: an even number of bytes, all hex digits.
pub open spec fn valid_hex(s: Seq<u8>) -> bool {
    s.len() % 2 == 0 && forall|i: int| 0 <= i < s.len() ==> is_hex_digit(s[i])
}

/// What a valid hexadecimal name decodes to: one byte per digit pair, the
/// first digit of each pair giving the high four bits.
pub open spec fn hex_decoded(s: Seq<u8>) -> Seq<u8>
    recommends
        valid_hex(s),
{
    Seq::new(s.len() / 2, |i: int| (hex_digit_value(s[2 * i]) * 16 + hex_digit_value(
        s[2 * i + 1],
    )) as u8)
}

/// The index of the first byte that is not a hexadecimal digit (the length
/// of the sequence when every byte is one).
pub open spec fn first_non_hex(s: Seq<u8>) -> int
    decreases s.len(),
{
    if s.len() == 0 {
        0
    } else if !is_hex_digit(s[0]) {
        0
    } else {
        1 + first_non_hex(s.drop_first())
    }
}

/// The error an invalid name decodes to: odd length takes precedence, then
/// the first byte that is not a hex digit, reported with its position.
pub open spec fn hex_error(s: Seq<u8>) -> HexDecodeError
    recommends
        !valid_hex(s),
{
    if s.len() % 2 != 0 {
        HexDecodeError::OddLength
    } else {
        HexDecodeError::InvalidHexCharacter {
            byte: s[first_non_hex(s)],
            index: first_non_hex(s) as usize,
        }
    }
}

/// `first_non_hex` is the least index holding a byte that is not a hex digit.
proof fn lemma_first_non_hex(s: Seq<u8>, i: int)
    requires
        0 <= i < s.len(),
        !is_hex_digit(s[i]),
        forall|j: int| 0 <= j < i ==> is_hex_digit(s[j]),
    ensures
        first_non_hex(s) == i,
    decreases i,
{
    if i > 0 {
        assert(forall|j: int| 0 <= j < i - 1 ==> is_hex_digit(s.drop_first()[j]));
        lemma_first_non_hex(s.drop_first(), i - 1);
    }
}

/// The value of one hexadecimal digit byte.
fn hex_val(b: u8) -> (v: u8)
    requires
        is_hex_digit(b),
    ensures
        v == hex_digit_value(b),
        v <= 15,
{
    if 97 <= b {
        b - 97 + 10
    } else if 65 <= b {
        b - 65 + 10
    } else {
        b - 48
    }
}

/// Decode a hexadecimal name into bytes, two digits to a byte. An odd-length
/// name is rejected before its bytes are examined; an even-length name with a
/// byte that is no hex digit is rejected at the first such position.
pub fn decode(name: &Vec<u8>) -> (r: Result<Vec<u8>, HexDecodeError>)
    ensures
        match r {
            Ok(b) => valid_hex(name@) && b@ == hex_decoded(name@),
            Err(e) => !valid_hex(name@) && e == hex_error(name@),
        },
        r is Ok <==> valid_hex(name@),
{
    if name.len() % 2 != 0 {
        return Err(HexDecodeError::OddLength);
    }
    let mut i: usize = 0;
    while i < name.len()
        invariant
            name@.len() % 2 == 0,
            i <= name.len(),
            forall|j: int| 0 <= j < i ==> is_hex_digit(name@[j]),
        decreases name.len() - i,
    {
        let b = name[i];
        if !(48 <= b && b <= 57 || 97 <= b && b <= 102 || 65 <= b && b <= 70) {
            proof {
                lemma_first_non_hex(name@, i as int);
            }
            return Err(HexDecodeError::InvalidHexCharacter { byte: b, index: i });
        }
        i = i + 1;
    }
    let mut out: Vec<u8> = Vec::new();
    let mut k: usize = 0;
    while k < name.len() / 2
        invariant
            name@.len() % 2 == 0,
            k <= name@.len() / 2,
            valid_hex(name@),
            out@ =~= hex_decoded(name@).take(k as int),
        decreases name.len() / 2 - k,
    {
        let hi = hex_val(name[2 * k]);
        let lo = hex_val(name[2 * k + 1]);
        out.push(hi * 16 + lo);
        proof {
            assert(out@ =~= hex_decoded(name@).take(k + 1));
        }
        k = k + 1;
    }
    proof {
        assert(hex_decoded(name@).take((name@.len() / 2) as int) =~= hex_decoded(name@));
    }
    Ok(out)
}

} // verus!
