//! Strict hexadecimal decoding of fixed-length byte strings.

use vstd::prelude::*;
use vstd::string::*;
use vstd::utf8::*;

verus! {

/// The value of a hexadecimal digit, or `None` for any other character.
/// Both letter cases are digits; signs and whitespace are not.
pub open spec fn hex_digit_value(c: char) -> Option<u8> {
    let v = c as u32;
    if 48 <= v <= 57 {
        Some((v - 48) as u8)
    } else if 97 <= v <= 102 {
        Some((v - 87) as u8)
    } else if 65 <= v <= 70 {
        Some((v - 55) as u8)
    } else {
        None
    }
}

/// `s` is exactly `2 * n` hexadecimal digits.
pub open spec fn is_hex_string(s: Seq<char>, n: nat) -> bool {
    &&& s.len() == 2 * n
    &&& forall|i: int| 0 <= i < s.len() ==> (#[trigger] hex_digit_value(s[i])) is Some
}

/// The byte that the digit pair at position `i` of `s` encodes.
pub open spec fn hex_byte_at(s: Seq<char>, i: int) -> u8 {
    (16 * hex_digit_value(s[2 * i])->0 + hex_digit_value(s[2 * i + 1])->0) as u8
}

/// The bytes that a string of hexadecimal digit pairs encodes, high digit first.
pub open spec fn hex_decode(s: Seq<char>) -> Seq<u8> {
    Seq::new((s.len() / 2) as nat, |i: int| hex_byte_at(s, i))
}

/// Every hexadecimal digit is an ASCII character.
proof fn lemma_hex_digit_is_ascii(c: char)
    ensures
        hex_digit_value(c) is Some ==> '\0' <= c <= '\u{7f}',
{
}

/// The value of the ASCII hexadecimal digit `b`.
fn hex_value(b: u8) -> (r: Option<u8>)
    ensures
        r == hex_digit_value(b as char),
        r matches Some(v) ==> v < 16,
{
    if 48 <= b && b <= 57 {
        Some(b - 48)
    } else if 97 <= b && b <= 102 {
        Some(b - 87)
    } else if 65 <= b && b <= 70 {
        Some(b - 55)
    } else {
        None
    }
}

/// Decodes `s` as exactly `N` bytes written as `2 * N` hexadecimal digits.
///
/// Returns `None` when `s` has another length or holds anything but
/// hexadecimal digits.
pub fn parse_hex<const N: usize>(s: &str) -> (r: Option<[u8; N]>)
    ensures
        r is Some <==> is_hex_string(s@, N as nat),
        r matches Some(a) ==> a@ == hex_decode(s@),
{
    if !s.is_ascii() {
        proof {
            assert(!is_ascii_chars(s@));
            let i = choose|i: int| 0 <= i < s@.len() && !('\0' <= #[trigger] s@[i] <= '\u{7f}');
            lemma_hex_digit_is_ascii(s@[i]);
        }
        return None;
    }
    let bytes = s.as_bytes();
    proof {
        is_ascii_spec_bytes(s);
    }
    let len = bytes.len();
    if len % 2 != 0 || len / 2 != N {
        return None;
    }
    let mut result = [0u8; N];
    let mut i: usize = 0;
    while i < N
        invariant
            i <= N,
            len == 2 * N,
            bytes@.len() == len,
            s@.len() == len,
            forall|k: int| 0 <= k < len ==> bytes@[k] == (#[trigger] s@[k]) as u8,
            forall|k: int| 0 <= k < len ==> '\0' <= (#[trigger] s@[k]) <= '\u{7f}',
            forall|k: int| 0 <= k < 2 * i ==> (#[trigger] hex_digit_value(s@[k])) is Some,
            forall|k: int| 0 <= k < i ==> result@[k] == hex_byte_at(s@, k),
        decreases N - i,
    {
        let hi = hex_value(bytes[2 * i]);
        let lo = hex_value(bytes[2 * i + 1]);
        assert(bytes@[2 * i as int] as char == s@[2 * i as int]);
        assert(bytes@[2 * i + 1] as char == s@[2 * i + 1]);
        match (hi, lo) {
            (Some(h), Some(l)) => {
                result[i] = h * 16 + l;
            },
            _ => {
                return None;
            },
        }
        i += 1;
    }
    assert(result@ =~= hex_decode(s@));
    Some(result)
}

} // verus!
