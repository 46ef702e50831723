//! Standard base64 (RFC 4648, with `=` padding), as used for the three
//! encoded fields of the login payload.
//!
//! The executable encoding is done by the `base64` crate; this module gives
//! it an exact mathematical specification (`b64_encode`), the matching
//! decoding function (`b64_decode`), and the round-trip law relating them.

use vstd::prelude::*;

verus! {

/// The character of the standard base64 alphabet at index `v` (0 <= v < 64).
pub open spec fn b64_char(v: int) -> char {
    if v == 0 { 'A' } else if v == 1 { 'B' } else if v == 2 { 'C' } else if v == 3 { 'D' }
    else if v == 4 { 'E' } else if v == 5 { 'F' } else if v == 6 { 'G' } else if v == 7 { 'H' }
    else if v == 8 { 'I' } else if v == 9 { 'J' } else if v == 10 { 'K' } else if v == 11 { 'L' }
    else if v == 12 { 'M' } else if v == 13 { 'N' } else if v == 14 { 'O' } else if v == 15 { 'P' }
    else if v == 16 { 'Q' } else if v == 17 { 'R' } else if v == 18 { 'S' } else if v == 19 { 'T' }
    else if v == 20 { 'U' } else if v == 21 { 'V' } else if v == 22 { 'W' } else if v == 23 { 'X' }
    else if v == 24 { 'Y' } else if v == 25 { 'Z' } else if v == 26 { 'a' } else if v == 27 { 'b' }
    else if v == 28 { 'c' } else if v == 29 { 'd' } else if v == 30 { 'e' } else if v == 31 { 'f' }
    else if v == 32 { 'g' } else if v == 33 { 'h' } else if v == 34 { 'i' } else if v == 35 { 'j' }
    else if v == 36 { 'k' } else if v == 37 { 'l' } else if v == 38 { 'm' } else if v == 39 { 'n' }
    else if v == 40 { 'o' } else if v == 41 { 'p' } else if v == 42 { 'q' } else if v == 43 { 'r' }
    else if v == 44 { 's' } else if v == 45 { 't' } else if v == 46 { 'u' } else if v == 47 { 'v' }
    else if v == 48 { 'w' } else if v == 49 { 'x' } else if v == 50 { 'y' } else if v == 51 { 'z' }
    else if v == 52 { '0' } else if v == 53 { '1' } else if v == 54 { '2' } else if v == 55 { '3' }
    else if v == 56 { '4' } else if v == 57 { '5' } else if v == 58 { '6' } else if v == 59 { '7' }
    else if v == 60 { '8' } else if v == 61 { '9' } else if v == 62 { '+' } else { '/' }
}

/// The index of `c` in the standard base64 alphabet, or -1 when `c` is not
/// an alphabet character (`=` in particular is not).
pub open spec fn b64_index(c: char) -> int {
    let u = c as u32;
    if 65 <= u && u <= 90 {
        u - 65
    } else if 97 <= u && u <= 122 {
        u - 97 + 26
    } else if 48 <= u && u <= 57 {
        u - 48 + 52
    } else if c == '+' {
        62
    } else if c == '/' {
        63
    } else {
        -1
    }
}

pub open spec fn is_b64_char(c: char) -> bool {
    0 <= b64_index(c) < 64
}

/// The alphabet and its index function are inverse to each other.
pub proof fn lemma_b64_char_index(v: int)
    requires
        0 <= v < 64,
    ensures
        b64_index(b64_char(v)) == v,
        b64_char(v) != '=',
{
}

/// The four base64 characters of one full three-byte group.
pub open spec fn b64_group(b0: u8, b1: u8, b2: u8) -> Seq<char> {
    seq![
        b64_char(b0 as int / 4),
        b64_char((b0 as int % 4) * 16 + b1 as int / 16),
        b64_char((b1 as int % 16) * 4 + b2 as int / 64),
        b64_char(b2 as int % 64),
    ]
}

/// Standard base64 encoding with padding: full three-byte groups from the
/// front, then a padded final group for a one- or two-byte remainder.
pub open spec fn b64_encode(s: Seq<u8>) -> Seq<char>
    decreases s.len(),
{
    if s.len() >= 3 {
        b64_group(s[0], s[1], s[2]) + b64_encode(s.skip(3))
    } else if s.len() == 2 {
        seq![
            b64_char(s[0] as int / 4),
            b64_char((s[0] as int % 4) * 16 + s[1] as int / 16),
            b64_char((s[1] as int % 16) * 4),
            '=',
        ]
    } else if s.len() == 1 {
        seq![b64_char(s[0] as int / 4), b64_char((s[0] as int % 4) * 16), '=', '=']
    } else {
        Seq::empty()
    }
}

/// Decoding of one final quantum of four characters, honouring `=` padding.
pub open spec fn b64_last_group(c0: char, c1: char, c2: char, c3: char) -> Option<Seq<u8>> {
    if !is_b64_char(c0) || !is_b64_char(c1) {
        None
    } else {
        let v0 = b64_index(c0);
        let v1 = b64_index(c1);
        if c2 == '=' && c3 == '=' {
            if v1 % 16 == 0 {
                Some(seq![(v0 * 4 + v1 / 16) as u8])
            } else {
                None
            }
        } else if is_b64_char(c2) && c3 == '=' {
            let v2 = b64_index(c2);
            if v2 % 4 == 0 {
                Some(seq![(v0 * 4 + v1 / 16) as u8, ((v1 % 16) * 16 + v2 / 4) as u8])
            } else {
                None
            }
        } else if is_b64_char(c2) && is_b64_char(c3) {
            let v2 = b64_index(c2);
            let v3 = b64_index(c3);
            Some(
                seq![
                    (v0 * 4 + v1 / 16) as u8,
                    ((v1 % 16) * 16 + v2 / 4) as u8,
                    ((v2 % 4) * 64 + v3) as u8,
                ],
            )
        } else {
            None
        }
    }
}

/// Standard base64 decoding: `None` on any text that `b64_encode` cannot
/// produce (wrong length, a character outside the alphabet, misplaced
/// padding, or padding bits that are not zero).
pub open spec fn b64_decode(s: Seq<char>) -> Option<Seq<u8>>
    decreases s.len(),
{
    if s.len() == 0 {
        Some(Seq::empty())
    } else if s.len() == 4 {
        b64_last_group(s[0], s[1], s[2], s[3])
    } else if s.len() < 4 {
        None
    } else {
        if is_b64_char(s[0]) && is_b64_char(s[1]) && is_b64_char(s[2]) && is_b64_char(s[3]) {
            match b64_decode(s.skip(4)) {
                Some(rest) => Some(
                    seq![
                        (b64_index(s[0]) * 4 + b64_index(s[1]) / 16) as u8,
                        ((b64_index(s[1]) % 16) * 16 + b64_index(s[2]) / 4) as u8,
                        ((b64_index(s[2]) % 4) * 64 + b64_index(s[3])) as u8,
                    ] + rest,
                ),
                None => None,
            }
        } else {
            None
        }
    }
}

/// Round trip: decoding an encoding yields exactly the bytes encoded.
pub proof fn lemma_b64_round_trip(s: Seq<u8>)
    ensures
        b64_decode(b64_encode(s)) == Some(s),
    decreases s.len(),
{
    if s.len() == 0 {
        assert(b64_encode(s) =~= Seq::<char>::empty());
        assert(b64_decode(b64_encode(s)) == Some(Seq::<u8>::empty()));
        assert(Seq::<u8>::empty() =~= s);
    } else if s.len() == 1 {
        let b0 = s[0];
        let v0 = b0 as int / 4;
        let v1 = (b0 as int % 4) * 16;
        lemma_b64_char_index(v0);
        lemma_b64_char_index(v1);
        let e = b64_encode(s);
        assert(e.len() == 4);
        assert(b64_decode(e) == b64_last_group(e[0], e[1], e[2], e[3]));
        assert(v1 % 16 == 0);
        assert(v0 * 4 + v1 / 16 == b0 as int);
        assert(b64_last_group(e[0], e[1], e[2], e[3]) == Some(seq![b0]));
        assert(seq![b0] =~= s);
    } else if s.len() == 2 {
        let b0 = s[0];
        let b1 = s[1];
        let v0 = b0 as int / 4;
        let v1 = (b0 as int % 4) * 16 + b1 as int / 16;
        let v2 = (b1 as int % 16) * 4;
        lemma_b64_char_index(v0);
        lemma_b64_char_index(v1);
        lemma_b64_char_index(v2);
        let e = b64_encode(s);
        assert(e.len() == 4);
        assert(b64_decode(e) == b64_last_group(e[0], e[1], e[2], e[3]));
        assert(v2 % 4 == 0);
        assert(v0 * 4 + v1 / 16 == b0 as int);
        assert((v1 % 16) * 16 + v2 / 4 == b1 as int);
        assert(b64_last_group(e[0], e[1], e[2], e[3]) == Some(seq![b0, b1]));
        assert(seq![b0, b1] =~= s);
    } else {
        let b0 = s[0];
        let b1 = s[1];
        let b2 = s[2];
        let v0 = b0 as int / 4;
        let v1 = (b0 as int % 4) * 16 + b1 as int / 16;
        let v2 = (b1 as int % 16) * 4 + b2 as int / 64;
        let v3 = b2 as int % 64;
        lemma_b64_char_index(v0);
        lemma_b64_char_index(v1);
        lemma_b64_char_index(v2);
        lemma_b64_char_index(v3);
        assert(v0 * 4 + v1 / 16 == b0 as int);
        assert((v1 % 16) * 16 + v2 / 4 == b1 as int);
        assert((v2 % 4) * 64 + v3 == b2 as int);
        let rest = s.skip(3);
        let e = b64_encode(s);
        let g = b64_group(b0, b1, b2);
        let erest = b64_encode(rest);
        assert(e == g + erest);
        lemma_b64_round_trip(rest);
        lemma_b64_encode_len(rest);
        if rest.len() == 0 {
            assert(erest.len() == 0);
            assert(e =~= g);
            assert(e.len() == 4);
            assert(b64_decode(e) == b64_last_group(g[0], g[1], g[2], g[3]));
            assert(b64_last_group(g[0], g[1], g[2], g[3]) == Some(seq![b0, b1, b2]));
            assert(seq![b0, b1, b2] =~= s);
        } else {
            assert(erest.len() >= 4);
            assert(e.len() > 4);
            assert(e[0] == g[0] && e[1] == g[1] && e[2] == g[2] && e[3] == g[3]);
            assert(e.skip(4) =~= erest);
            assert(b64_decode(e) == Some(seq![b0, b1, b2] + rest));
            assert(seq![b0, b1, b2] + rest =~= s);
        }
    }
}

/// The length of an encoding: four characters for every started group of three bytes.
pub proof fn lemma_b64_encode_len(s: Seq<u8>)
    ensures
        b64_encode(s).len() == ((s.len() + 2) / 3) * 4,
    decreases s.len(),
{
    if s.len() >= 3 {
        lemma_b64_encode_len(s.skip(3));
    }
}

/// Relies on `base64::encode`: standard-alphabet base64 with `=` padding,
/// a pure function of the input bytes.
#[verifier::external_body]
pub fn encode_base64(b: &Vec<u8>) -> (r: String)
    ensures
        r@ == b64_encode(b@),
{
    base64::encode(b)
}

} // verus!
