//! Compact JSON serialization for the two objects this library emits: the
//! signed-header map and the login payload.
//!
//! The output is a byte sequence rather than a string: every character
//! outside printable ASCII is written as a standard JSON `\u` escape, so the
//! emitted bytes are both the UTF-8 encoding of the JSON text and plain
//! ASCII. Everything here is executable verified code with an exact
//! specification; no JSON library is involved.

use vstd::prelude::*;
use vstd::string::StrSliceExecFns;

verus! {

/// Lowercase hexadecimal digit for `d` (0 <= d < 16).
pub open spec fn hex_digit(d: int) -> u8 {
    if d < 10 {
        (48 + d) as u8
    } else {
        (87 + d) as u8
    }
}

/// Four lowercase hexadecimal digits of `v` (0 <= v < 0x10000).
pub open spec fn hex4(v: int) -> Seq<u8> {
    seq![hex_digit(v / 4096), hex_digit((v / 256) % 16), hex_digit((v / 16) % 16), hex_digit(v % 16)]
}

/// The bytes a character contributes to a JSON string literal: printable
/// ASCII stands for itself, `"` and `\` take a backslash, the short control
/// escapes are used where JSON has them, and every other character becomes
/// one `\uXXXX` escape (a surrogate pair above the basic plane).
pub open spec fn escape_char(c: char) -> Seq<u8> {
    let u = c as u32;
    if c == '"' {
        seq![92u8, 34u8]
    } else if c == '\\' {
        seq![92u8, 92u8]
    } else if u == 8 {
        seq![92u8, 98u8]
    } else if u == 9 {
        seq![92u8, 116u8]
    } else if u == 10 {
        seq![92u8, 110u8]
    } else if u == 12 {
        seq![92u8, 102u8]
    } else if u == 13 {
        seq![92u8, 114u8]
    } else if u < 32 || (128 <= u && u < 0x10000) {
        seq![92u8, 117u8] + hex4(u as int)
    } else if u < 128 {
        seq![u as u8]
    } else {
        seq![92u8, 117u8] + hex4(0xD800 + ((u - 0x10000) as int) / 1024) + seq![92u8, 117u8]
            + hex4(0xDC00 + ((u - 0x10000) as int) % 1024)
    }
}

/// The escaped bytes of the characters of `s` from position `i` on.
pub open spec fn escape_from(s: Seq<char>, i: int) -> Seq<u8>
    decreases s.len() - i,
{
    if i < 0 || i >= s.len() {
        Seq::empty()
    } else {
        escape_char(s[i]) + escape_from(s, i + 1)
    }
}

/// A JSON string literal: the escaped characters between double quotes.
pub open spec fn json_string(s: Seq<char>) -> Seq<u8> {
    seq![34u8] + escape_from(s, 0) + seq![34u8]
}

/// `,"v"` for each element of `vs` from position `i` on.
pub open spec fn array_rest(vs: Seq<Seq<char>>, i: int) -> Seq<u8>
    decreases vs.len() - i,
{
    if i < 0 || i >= vs.len() {
        Seq::empty()
    } else {
        seq![44u8] + json_string(vs[i]) + array_rest(vs, i + 1)
    }
}

/// A JSON array of strings, comma-separated, without spaces.
pub open spec fn json_array(vs: Seq<Seq<char>>) -> Seq<u8> {
    if vs.len() == 0 {
        seq![91u8, 93u8]
    } else {
        seq![91u8] + json_string(vs[0]) + array_rest(vs, 1) + seq![93u8]
    }
}

/// One object member: `"name":[values]`.
pub open spec fn json_member(k: Seq<char>, vs: Seq<Seq<char>>) -> Seq<u8> {
    json_string(k) + seq![58u8] + json_array(vs)
}

/// `,"name":[values]` for each pair of `hs` from position `i` on.
pub open spec fn members_rest(hs: Seq<(Seq<char>, Seq<Seq<char>>)>, i: int) -> Seq<u8>
    decreases hs.len() - i,
{
    if i < 0 || i >= hs.len() {
        Seq::empty()
    } else {
        seq![44u8] + json_member(hs[i].0, hs[i].1) + members_rest(hs, i + 1)
    }
}

/// The compact JSON object mapping each header name of `hs`, in order, to
/// its array of values.
pub open spec fn headers_json(hs: Seq<(Seq<char>, Seq<Seq<char>>)>) -> Seq<u8> {
    if hs.len() == 0 {
        seq![123u8, 125u8]
    } else {
        seq![123u8] + json_member(hs[0].0, hs[0].1) + members_rest(hs, 1) + seq![125u8]
    }
}

/// `sub` stands somewhere inside `s` as a contiguous run of bytes.
pub open spec fn contains_subrange(s: Seq<u8>, sub: Seq<u8>) -> bool {
    exists|a: int| 0 <= a && a + sub.len() <= s.len() && #[trigger] s.subrange(a, a + sub.len())
        == sub
}

/// A subrange of one part of a concatenation is a subrange of the whole.
proof fn lemma_contains_extend(pre: Seq<u8>, s: Seq<u8>, post: Seq<u8>, sub: Seq<u8>)
    requires
        contains_subrange(s, sub),
    ensures
        contains_subrange(pre + s + post, sub),
{
    let a = choose|a: int|
        0 <= a && a + sub.len() <= s.len() && #[trigger] s.subrange(a, a + sub.len()) == sub;
    let b = pre.len() + a;
    assert((pre + s + post).subrange(b, b + sub.len()) =~= s.subrange(a, a + sub.len()));
}

/// Each member of `hs` from position `i` on stands whole inside
/// `members_rest(hs, i)`.
proof fn lemma_members_rest_contains(hs: Seq<(Seq<char>, Seq<Seq<char>>)>, t: int, i: int)
    requires
        0 <= t <= i < hs.len(),
    ensures
        contains_subrange(members_rest(hs, t), json_member(hs[i].0, hs[i].1)),
    decreases i - t,
{
    let m = json_member(hs[t].0, hs[t].1);
    if t == i {
        let whole = members_rest(hs, t);
        assert(whole == seq![44u8] + m + members_rest(hs, t + 1));
        assert(whole.subrange(1, 1 + m.len() as int) =~= m);
    } else {
        lemma_members_rest_contains(hs, t + 1, i);
        lemma_contains_extend(
            seq![44u8] + m,
            members_rest(hs, t + 1),
            Seq::empty(),
            json_member(hs[i].0, hs[i].1),
        );
        assert(seq![44u8] + m + members_rest(hs, t + 1) + Seq::<u8>::empty() =~= members_rest(
            hs,
            t,
        ));
    }
}

/// Law: the serialized header object contains each listed member whole: for
/// every position of the header list, the bytes `"name":[values]` stand
/// contiguously inside the object's bytes.
pub proof fn lemma_headers_json_contains_member(hs: Seq<(Seq<char>, Seq<Seq<char>>)>, i: int)
    requires
        0 <= i < hs.len(),
    ensures
        contains_subrange(headers_json(hs), json_member(hs[i].0, hs[i].1)),
{
    let m0 = json_member(hs[0].0, hs[0].1);
    if i == 0 {
        let whole = headers_json(hs);
        assert(whole == seq![123u8] + m0 + members_rest(hs, 1) + seq![125u8]);
        assert(whole.subrange(1, 1 + m0.len() as int) =~= m0);
    } else {
        lemma_members_rest_contains(hs, 1, i);
        lemma_contains_extend(
            seq![123u8] + m0,
            members_rest(hs, 1),
            seq![125u8],
            json_member(hs[i].0, hs[i].1),
        );
        assert(seq![123u8] + m0 + members_rest(hs, 1) + seq![125u8] =~= headers_json(hs));
    }
}

/// The view of a header list held as owned values.
pub open spec fn header_pairs_view(hs: Seq<(String, Vec<String>)>) -> Seq<(Seq<char>, Seq<Seq<char>>)> {
    hs.map_values(|p: (String, Vec<String>)| (p.0@, p.1@.map_values(|v: String| v@)))
}

/// Lowercase hexadecimal digit as a byte.
fn hex_digit_byte(d: u32) -> (r: u8)
    requires
        d < 16,
    ensures
        r == hex_digit(d as int),
{
    if d < 10 {
        (48 + d) as u8
    } else {
        (87 + d) as u8
    }
}

/// Appends the four hexadecimal digits of `v` to `out`.
fn push_hex4(out: &mut Vec<u8>, v: u32)
    requires
        v < 0x10000,
    ensures
        final(out)@ == old(out)@ + hex4(v as int),
{
    out.push(hex_digit_byte(v / 4096));
    out.push(hex_digit_byte((v / 256) % 16));
    out.push(hex_digit_byte((v / 16) % 16));
    out.push(hex_digit_byte(v % 16));
    assert(out@ =~= old(out)@ + hex4(v as int));
}

/// Appends the JSON escape of one character to `out`.
fn push_escaped_char(out: &mut Vec<u8>, c: char)
    ensures
        final(out)@ == old(out)@ + escape_char(c),
{
    let u = c as u32;
    proof {
        vstd::utf8::char_is_scalar(c);
    }
    if c == '"' {
        out.push(92);
        out.push(34);
    } else if c == '\\' {
        out.push(92);
        out.push(92);
    } else if u == 8 {
        out.push(92);
        out.push(98);
    } else if u == 9 {
        out.push(92);
        out.push(116);
    } else if u == 10 {
        out.push(92);
        out.push(110);
    } else if u == 12 {
        out.push(92);
        out.push(102);
    } else if u == 13 {
        out.push(92);
        out.push(114);
    } else if u < 32 || (128 <= u && u < 0x10000) {
        out.push(92);
        out.push(117);
        push_hex4(out, u);
    } else if u < 128 {
        out.push(u as u8);
    } else {
        let rest = u - 0x10000;
        out.push(92);
        out.push(117);
        push_hex4(out, 0xD800 + rest / 1024);
        out.push(92);
        out.push(117);
        push_hex4(out, 0xDC00 + rest % 1024);
    }
    assert(out@ =~= old(out)@ + escape_char(c));
}

/// Appends the escaped characters of `s` to `out`.
fn push_escaped(out: &mut Vec<u8>, s: &str)
    ensures
        final(out)@ == old(out)@ + escape_from(s@, 0),
{
    let n = s.unicode_len();
    let mut i: usize = 0;
    while i < n
        invariant
            n == s@.len(),
            i <= n,
            out@ + escape_from(s@, i as int) == old(out)@ + escape_from(s@, 0),
        decreases n - i,
    {
        push_escaped_char(out, s.get_char(i));
        i = i + 1;
        assert(out@ + escape_from(s@, i as int) =~= old(out)@ + escape_from(s@, 0));
    }
    assert(out@ =~= old(out)@ + escape_from(s@, 0));
}

/// Appends the JSON string literal for `s` to `out`.
pub fn push_json_string(out: &mut Vec<u8>, s: &str)
    ensures
        final(out)@ == old(out)@ + json_string(s@),
{
    out.push(34);
    push_escaped(out, s);
    out.push(34);
    assert(out@ =~= old(out)@ + json_string(s@));
}

/// Appends the JSON array of the strings of `vs` to `out`.
fn push_json_array(out: &mut Vec<u8>, vs: &Vec<String>)
    ensures
        final(out)@ == old(out)@ + json_array(vs@.map_values(|v: String| v@)),
{
    let ghost vsv = vs@.map_values(|v: String| v@);
    out.push(91);
    if vs.len() > 0 {
        push_json_string(out, vs[0].as_str());
        let mut i: usize = 1;
        while i < vs.len()
            invariant
                1 <= i <= vs.len(),
                vsv == vs@.map_values(|v: String| v@),
                out@ + array_rest(vsv, i as int) == old(out)@ + seq![91u8] + json_string(vsv[0])
                    + array_rest(vsv, 1),
            decreases vs.len() - i,
        {
            out.push(44);
            push_json_string(out, vs[i].as_str());
            i = i + 1;
            assert(out@ + array_rest(vsv, i as int) =~= old(out)@ + seq![91u8] + json_string(vsv[0])
                + array_rest(vsv, 1));
        }
    }
    out.push(93);
    assert(out@ =~= old(out)@ + json_array(vsv));
}

/// The compact JSON object for a list of header names with their value
/// lists, in the order given.
pub fn headers_to_json(hs: &Vec<(String, Vec<String>)>) -> (r: Vec<u8>)
    ensures
        r@ == headers_json(header_pairs_view(hs@)),
{
    let ghost hsv = header_pairs_view(hs@);
    let mut out: Vec<u8> = Vec::new();
    out.push(123);
    if hs.len() > 0 {
        push_json_string(&mut out, hs[0].0.as_str());
        out.push(58);
        push_json_array(&mut out, &hs[0].1);
        assert(out@ =~= seq![123u8] + json_member(hsv[0].0, hsv[0].1));
        let mut i: usize = 1;
        while i < hs.len()
            invariant
                1 <= i <= hs.len(),
                hsv == header_pairs_view(hs@),
                out@ + members_rest(hsv, i as int) == seq![123u8] + json_member(hsv[0].0, hsv[0].1)
                    + members_rest(hsv, 1),
            decreases hs.len() - i,
        {
            out.push(44);
            push_json_string(&mut out, hs[i].0.as_str());
            out.push(58);
            push_json_array(&mut out, &hs[i].1);
            i = i + 1;
            assert(out@ + members_rest(hsv, i as int) =~= seq![123u8] + json_member(hsv[0].0,
                hsv[0].1) + members_rest(hsv, 1));
        }
    }
    out.push(125);
    assert(out@ =~= headers_json(hsv));
    out
}

} // verus!
