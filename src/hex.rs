//! Decoding of SHA-1 digests written as hexadecimal text.
use vstd::prelude::*;

verus! {

/// Length in bytes of a SHA-1 digest.
pub const DIGEST_LEN: usize = 20;

/// The value of one hexadecimal digit, either case.
pub open spec fn hex_value(c: char) -> Option<u8> {
    if '0' <= c && c <= '9' {
        Some((c as u32 - '0' as u32) as u8)
    } else if 'a' <= c && c <= 'f' {
        Some((c as u32 - 'a' as u32 + 10) as u8)
    } else if 'A' <= c && c <= 'F' {
        Some((c as u32 - 'A' as u32 + 10) as u8)
    } else {
        None
    }
}

/// `s` is exactly one digest: two hexadecimal digits per byte.
pub open spec fn is_digest_text(s: Seq<char>) -> bool {
    &&& s.len() == 2 * DIGEST_LEN
    &&& forall|i: int| 0 <= i < s.len() ==> (#[trigger] hex_value(s[i])) is Some
}

/// The byte that the digits at `2 * i` and `2 * i + 1` stand for.
pub open spec fn byte_at(s: Seq<char>, i: int) -> u8 {
    (hex_value(s[2 * i])->0 * 16 + hex_value(s[2 * i + 1])->0) as u8
}

/// The digest that `s` writes, if it writes one.
pub open spec fn decode_digest_spec(s: Seq<char>) -> Option<Seq<u8>> {
    if is_digest_text(s) {
        Some(Seq::new(DIGEST_LEN as nat, |i: int| byte_at(s, i)))
    } else {
        None
    }
}

/// The value of the hexadecimal digit `c`, if it is one.
pub fn hex_digit(c: char) -> (r: Option<u8>)
    ensures
        r == hex_value(c),
{
    if '0' <= c && c <= '9' {
        Some((c as u32 - '0' as u32) as u8)
    } else if 'a' <= c && c <= 'f' {
        Some((c as u32 - 'a' as u32 + 10) as u8)
    } else if 'A' <= c && c <= 'F' {
        Some((c as u32 - 'A' as u32 + 10) as u8)
    } else {
        None
    }
}

/// Decodes a 40-digit hexadecimal digest into its 20 bytes.
pub fn decode_digest(s: &str) -> (r: Option<Vec<u8>>)
    ensures
        r matches Some(v) ==> decode_digest_spec(s@) == Some(v@),
        r is None ==> decode_digest_spec(s@) is None,
{
    let mut values: Vec<u8> = Vec::new();
    for c in it: s.chars()
        invariant
            it.seq() == s@,
            values.len() == it.index(),
            values.len() <= 2 * DIGEST_LEN,
            forall|j: int| 0 <= j < values.len() ==> hex_value(s@[j]) == Some(#[trigger] values@[j]),
    {
        if values.len() == 2 * DIGEST_LEN {
            return None;
        }
        match hex_digit(c) {
            Some(v) => values.push(v),
            None => return None,
        }
    }
    if values.len() != 2 * DIGEST_LEN {
        return None;
    }
    assert(is_digest_text(s@)) by {
        assert forall|j: int| 0 <= j < s@.len() implies (#[trigger] hex_value(s@[j])) is Some by {
            assert(hex_value(s@[j]) == Some(values@[j]));
        }
    }
    let mut out: Vec<u8> = Vec::new();
    let mut i: usize = 0;
    while i < DIGEST_LEN
        invariant
            i <= DIGEST_LEN,
            values.len() == 2 * DIGEST_LEN,
            s@.len() == values.len(),
            out.len() == i,
            forall|j: int| 0 <= j < i ==> out@[j] == byte_at(s@, j),
            forall|j: int| 0 <= j < values.len() ==> hex_value(s@[j]) == Some(#[trigger] values@[j]),
        decreases DIGEST_LEN - i,
    {
        let hi = values[2 * i];
        let lo = values[2 * i + 1];
        out.push(hi * 16 + lo);
        i = i + 1;
    }
    assert(out@ =~= Seq::new(DIGEST_LEN as nat, |j: int| byte_at(s@, j)));
    Some(out)
}

} // verus!
