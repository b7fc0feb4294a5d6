//! Lowercase hexadecimal encoding and decoding of byte strings, with an
//! exact specification and a proved round trip.
use vstd::prelude::*;

verus! {

/// The ASCII code of the hexadecimal digit for a nibble value below 16.
pub open spec fn hex_digit(n: u8) -> u8 {
    if n < 10 {
        (48 + n) as u8
    } else {
        (87 + n) as u8
    }
}

/// Whether an ASCII code is a hexadecimal digit this module accepts:
/// `0`-`9`, `a`-`f` or `A`-`F`.
pub open spec fn is_hex_digit(b: u8) -> bool {
    (48 <= b && b <= 57) || (97 <= b && b <= 102) || (65 <= b && b <= 70)
}

/// The nibble value of an accepted hexadecimal digit.
pub open spec fn hex_value(b: u8) -> u8 {
    if 48 <= b && b <= 57 {
        (b - 48) as u8
    } else if 97 <= b && b <= 102 {
        (b - 87) as u8
    } else {
        (b - 55) as u8
    }
}

/// The lowercase hexadecimal text of a byte string: two digits per byte,
/// high nibble first.
pub open spec fn hex_of(s: Seq<u8>) -> Seq<u8> {
    Seq::new(2 * s.len(), |j: int| if j % 2 == 0 {
        hex_digit(s[j / 2] / 16)
    } else {
        hex_digit(s[j / 2] % 16)
    })
}

/// Whether a byte string is well-formed hexadecimal text: even length,
/// every byte an accepted digit.
pub open spec fn hex_text_valid(s: Seq<u8>) -> bool {
    s.len() % 2 == 0 && forall|i: int| 0 <= i < s.len() ==> is_hex_digit(#[trigger] s[i])
}

/// The byte string denoted by well-formed hexadecimal text.
pub open spec fn bytes_of_hex(s: Seq<u8>) -> Seq<u8> {
    Seq::new(s.len() / 2, |i: int| (16 * hex_value(s[2 * i]) + hex_value(s[2 * i + 1])) as u8)
}

/// Encodes a byte string as lowercase hexadecimal text.
pub fn hex_encode(input: &Vec<u8>) -> (r: Vec<u8>)
    ensures
        r@ == hex_of(input@),
{
    let mut r: Vec<u8> = Vec::new();
    let mut i: usize = 0;
    while i < input.len()
        invariant
            i <= input.len(),
            r@ =~= hex_of(input@.take(i as int)),
        decreases input.len() - i,
    {
        let b = input[i];
        let hi = b / 16;
        let lo = b % 16;
        r.push(if hi < 10 { 48 + hi } else { 87 + hi });
        r.push(if lo < 10 { 48 + lo } else { 87 + lo });
        i = i + 1;
        proof {
            assert(r@ =~= hex_of(input@.take(i as int)));
        }
    }
    proof {
        assert(input@.take(input@.len() as int) =~= input@);
    }
    r
}

/// Decodes hexadecimal text into the byte string it denotes; rejects any
/// input that is not well-formed hexadecimal text.
pub fn hex_decode(text: &Vec<u8>) -> (r: Option<Vec<u8>>)
    ensures
        r is Some <==> hex_text_valid(text@),
        r matches Some(p) ==> p@ == bytes_of_hex(text@),
{
    if text.len() % 2 != 0 {
        return None;
    }
    let mut r: Vec<u8> = Vec::new();
    let mut i: usize = 0;
    while i < text.len()
        invariant
            text@.len() % 2 == 0,
            i % 2 == 0,
            i <= text.len(),
            forall|k: int| 0 <= k < i ==> is_hex_digit(#[trigger] text@[k]),
            r@ =~= bytes_of_hex(text@.take(i as int)),
        decreases text.len() - i,
    {
        let hi = match hex_digit_value(text[i]) {
            Some(v) => v,
            None => {
                return None;
            },
        };
        let lo = match hex_digit_value(text[i + 1]) {
            Some(v) => v,
            None => {
                return None;
            },
        };
        r.push(16 * hi + lo);
        i = i + 2;
        proof {
            assert(r@ =~= bytes_of_hex(text@.take(i as int)));
        }
    }
    proof {
        assert(text@.take(text@.len() as int) =~= text@);
    }
    Some(r)
}

/// Decodes one hexadecimal digit; rejects every other byte.
pub fn hex_digit_value(b: u8) -> (r: Option<u8>)
    ensures
        r is Some <==> is_hex_digit(b),
        r matches Some(v) ==> v == hex_value(b) && v < 16,
{
    if 48 <= b && b <= 57 {
        Some(b - 48)
    } else if 97 <= b && b <= 102 {
        Some(b - 87)
    } else if 65 <= b && b <= 70 {
        Some(b - 55)
    } else {
        None
    }
}

/// Encoding always yields well-formed hexadecimal text, and decoding that
/// text recovers the original byte string exactly.
pub proof fn lemma_hex_round_trip(s: Seq<u8>)
    ensures
        hex_text_valid(hex_of(s)),
        bytes_of_hex(hex_of(s)) == s,
{
    assert forall|i: int| 0 <= i < hex_of(s).len() implies is_hex_digit(#[trigger] hex_of(s)[i]) by {
        let b = s[i / 2];
        assert(b / 16 < 16 && b % 16 < 16);
    }
    assert forall|i: int| 0 <= i < s.len() implies bytes_of_hex(hex_of(s))[i] == s[i] by {
        let b = s[i];
        assert(hex_of(s)[2 * i] == hex_digit(b / 16));
        assert(hex_of(s)[2 * i + 1] == hex_digit(b % 16));
        assert(hex_value(hex_digit(b / 16)) == b / 16);
        assert(hex_value(hex_digit(b % 16)) == b % 16);
        assert(16 * (b / 16) + b % 16 == b) by {
            vstd::arithmetic::div_mod::lemma_fundamental_div_mod(b as int, 16);
        }
    }
    assert(bytes_of_hex(hex_of(s)) =~= s);
}

} // verus!
