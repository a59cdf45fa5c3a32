//! Hexadecimal text for addresses and hashes.
//!
//! Addresses (20 bytes) and hashes (32 bytes) cross the engine's boundary as
//! `0x`-prefixed hex strings; internally the engine works on byte vectors.
//! This module gives the two directions exact specifications: parsing accepts
//! an optional `0x` prefix and either case, printing always produces the
//! `0x`-prefixed lower-case form.

use vstd::prelude::*;

verus! {

/// Is `c` an ASCII hexadecimal digit?
pub open spec fn is_hex_char(c: char) -> bool {
    let u = c as u32;
    (48 <= u <= 57) || (97 <= u <= 102) || (65 <= u <= 70)
}

/// Numeric value of a hexadecimal digit.
pub open spec fn hex_char_val(c: char) -> u8
    recommends
        is_hex_char(c),
{
    let u = c as u32;
    if 48 <= u <= 57 {
        (u - 48) as u8
    } else if 97 <= u <= 102 {
        (u - 87) as u8
    } else {
        (u - 55) as u8
    }
}

/// Digits of `s` after an optional `0x` prefix.
pub open spec fn strip_hex_prefix(s: Seq<char>) -> Seq<char> {
    if s.len() >= 2 && s[0] == '0' && s[1] == 'x' {
        s.skip(2)
    } else {
        s
    }
}

/// Does `s` spell exactly `n` bytes in hex (optional `0x` prefix, either case)?
pub open spec fn is_hex_str(s: Seq<char>, n: nat) -> bool {
    let h = strip_hex_prefix(s);
    h.len() == 2 * n && forall|i: int| 0 <= i < h.len() ==> is_hex_char(#[trigger] h[i])
}

/// The bytes that `s` spells, two digits per byte.
pub open spec fn hex_bytes_of(s: Seq<char>) -> Seq<u8> {
    let h = strip_hex_prefix(s);
    Seq::new((h.len() / 2) as nat, |i: int| (16 * hex_char_val(h[2 * i]) + hex_char_val(h[2 * i + 1])) as u8)
}

/// Lower-case digit for a value below 16.
pub open spec fn hex_char_of(v: u8) -> char
    recommends
        v < 16,
{
    seq!['0', '1', '2', '3', '4', '5', '6', '7', '8', '9', 'a', 'b', 'c', 'd', 'e', 'f'][v as int]
}

/// Digits of `bs` in lower-case hex, two per byte, without a prefix.
pub open spec fn hex_chars_of(bs: Seq<u8>) -> Seq<char>
    decreases bs.len(),
{
    if bs.len() == 0 {
        Seq::empty()
    } else {
        hex_chars_of(bs.drop_last()) + seq![hex_char_of(bs.last() / 16), hex_char_of(bs.last() % 16)]
    }
}

/// The `0x`-prefixed lower-case rendering of `bs`.
pub open spec fn hex_str_of(bs: Seq<u8>) -> Seq<char> {
    seq!['0', 'x'] + hex_chars_of(bs)
}

/// Parse `s` as exactly `n` bytes of hex; `None` on any malformed input.
pub fn parse_hex_fixed(s: &str, n: usize) -> (r: Option<Vec<u8>>)
    requires
        n <= usize::MAX / 2,
    ensures
        r is Some <==> is_hex_str(s@, n as nat),
        r is Some ==> r->0@ == hex_bytes_of(s@) && r->0@.len() == n,
{
    let ulen = s.unicode_len();
    let off: usize = if ulen >= 2 && s.get_char(0) == '0' && s.get_char(1) == 'x' {
        2
    } else {
        0
    };
    assert(s@.skip(off as int) == strip_hex_prefix(s@));
    if ulen - off != 2 * n {
        return None;
    }
    let mut out: Vec<u8> = Vec::new();
    for i in 0..n
        invariant
            off + 2 * n == ulen,
            ulen as nat == s@.len(),
            n <= usize::MAX / 2,
            off == 0 || off == 2,
            s@.skip(off as int) == strip_hex_prefix(s@),
            out@.len() == i,
            forall|k: int| 0 <= k < 2 * i ==> is_hex_char(#[trigger] strip_hex_prefix(s@)[k]),
            forall|k: int| 0 <= k < i ==> out@[k] == (16 * hex_char_val(strip_hex_prefix(s@)[2 * k])
                + hex_char_val(strip_hex_prefix(s@)[2 * k + 1])) as u8,
    {
        let c1 = s.get_char(off + 2 * i);
        let c2 = s.get_char(off + 2 * i + 1);
        assert(strip_hex_prefix(s@)[2 * i] == c1);
        assert(strip_hex_prefix(s@)[2 * i + 1] == c2);
        let v1 = match hex_digit_value(c1) {
            Some(v) => v,
            None => {
                return None;
            },
        };
        let v2 = match hex_digit_value(c2) {
            Some(v) => v,
            None => {
                return None;
            },
        };
        out.push(16 * v1 + v2);
    }
    assert(is_hex_str(s@, n as nat));
    assert(out@ =~= hex_bytes_of(s@));
    Some(out)
}

/// Value of one hex digit; `None` when `c` is not a hex digit.
fn hex_digit_value(c: char) -> (r: Option<u8>)
    ensures
        r is Some <==> is_hex_char(c),
        r is Some ==> r->0 == hex_char_val(c),
{
    let u = c as u32;
    if 48 <= u && u <= 57 {
        Some((u - 48) as u8)
    } else if 97 <= u && u <= 102 {
        Some((u - 87) as u8)
    } else if 65 <= u && u <= 70 {
        Some((u - 55) as u8)
    } else {
        None
    }
}

/// Render `bs` as a `0x`-prefixed lower-case hex string.
pub fn hex_string_of(bs: &Vec<u8>) -> (r: String)
    ensures
        r@ == hex_str_of(bs@),
{
    let table = "0123456789abcdef";
    proof {
        reveal_strlit("0123456789abcdef");
        reveal_strlit("0x");
    }
    assert(table.is_ascii()) by {
        assert(forall|i: int| 0 <= i < table@.len() ==> (#[trigger] table@[i]) as u32 <= 0x7f);
    }
    let mut r = String::from_str("0x");
    let mut i: usize = 0;
    while i < bs.len()
        invariant
            i <= bs.len(),
            table@ =~= seq!['0', '1', '2', '3', '4', '5', '6', '7', '8', '9', 'a', 'b', 'c', 'd', 'e', 'f'],
            vstd::string::is_ascii(table),
            r@ == seq!['0', 'x'] + hex_chars_of(bs@.take(i as int)),
        decreases bs.len() - i,
    {
        let hi = (bs[i] / 16) as usize;
        let lo = (bs[i] % 16) as usize;
        r.append(table.substring_ascii(hi, hi + 1));
        r.append(table.substring_ascii(lo, lo + 1));
        proof {
            assert(bs@.take(i + 1).drop_last() =~= bs@.take(i as int));
            assert(bs@.take(i + 1).last() == bs@[i as int]);
            assert(table@.subrange(hi as int, hi + 1) =~= seq![hex_char_of(bs@[i as int] / 16)]);
            assert(table@.subrange(lo as int, lo + 1) =~= seq![hex_char_of(bs@[i as int] % 16)]);
            assert(r@ =~= seq!['0', 'x'] + hex_chars_of(bs@.take(i + 1)));
        }
        i = i + 1;
    }
    assert(bs@.take(bs@.len() as int) =~= bs@);
    r
}

} // verus!
