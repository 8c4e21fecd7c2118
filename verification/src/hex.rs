//! Lowercase hexadecimal text for byte strings.
use vstd::prelude::*;

use crate::text::{chars_of, push_char};

verus! {

/// The lowercase hex digit of a value below 16.
pub open spec fn hex_digit(n: int) -> char {
    if n < 10 {
        (('0' as int) + n) as char
    } else {
        (('a' as int) + n - 10) as char
    }
}

/// The value of a hex digit, in either case.
pub open spec fn hex_value(c: char) -> Option<int> {
    if '0' <= c && c <= '9' {
        Some(c as int - '0' as int)
    } else if 'a' <= c && c <= 'f' {
        Some(c as int - 'a' as int + 10)
    } else if 'A' <= c && c <= 'F' {
        Some(c as int - 'A' as int + 10)
    } else {
        None
    }
}

/// Two lowercase digits per byte, high nibble first.
pub open spec fn hex_encoding(b: Seq<u8>) -> Seq<char> {
    Seq::new(
        2 * b.len(),
        |i: int|
            if i % 2 == 0 {
                hex_digit((b[i / 2] / 16) as int)
            } else {
                hex_digit((b[i / 2] % 16) as int)
            },
    )
}

/// The bytes that a hex text denotes: none when its length is odd or a
/// character is not a hex digit.
pub open spec fn hex_decoding(s: Seq<char>) -> Option<Seq<u8>> {
    if s.len() % 2 != 0 {
        None
    } else if exists|i: int| 0 <= i < s.len() && #[trigger] hex_value(s[i]) is None {
        None
    } else {
        Some(
            Seq::new(
                s.len() / 2,
                |i: int| (16 * hex_value(s[2 * i])->0 + hex_value(s[2 * i + 1])->0) as u8,
            ),
        )
    }
}

fn digit_char(n: u8) -> (c: char)
    requires
        n < 16,
    ensures
        c == hex_digit(n as int),
{
    if n < 10 {
        (48u8 + n) as char
    } else {
        (87u8 + n) as char
    }
}

fn digit_value(c: char) -> (r: Option<u8>)
    ensures
        r matches Some(v) ==> hex_value(c) == Some(v as int) && v < 16,
        r is None ==> hex_value(c) is None,
{
    if '0' <= c && c <= '9' {
        Some(((c as u32) - 48) as u8)
    } else if 'a' <= c && c <= 'f' {
        Some(((c as u32) - 87) as u8)
    } else if 'A' <= c && c <= 'F' {
        Some(((c as u32) - 55) as u8)
    } else {
        None
    }
}

/// Encodes bytes as lowercase hex text.
pub fn encode(data: &[u8]) -> (s: String)
    ensures
        s@ == hex_encoding(data@),
{
    let mut s = String::new();
    let mut i: usize = 0;
    while i < data.len()
        invariant
            i <= data@.len(),
            s@ =~= hex_encoding(data@.take(i as int)),
        decreases data@.len() - i,
    {
        let b = data[i];
        push_char(&mut s, digit_char(b / 16));
        push_char(&mut s, digit_char(b % 16));
        i = i + 1;
        assert(s@ =~= hex_encoding(data@.take(i as int)));
    }
    assert(data@.take(i as int) =~= data@);
    s
}

/// Decodes hex text of either case; `None` when the text has odd length or
/// holds a character that is not a hex digit.
pub fn decode(text: &str) -> (r: Option<Vec<u8>>)
    ensures
        bytes_opt(r) == hex_decoding(text@),
{
    let chars = chars_of(text);
    let n = chars.len();
    if n % 2 != 0 {
        return None;
    }
    let mut out: Vec<u8> = Vec::new();
    let mut i: usize = 0;
    while i < n / 2
        invariant
            chars@ == text@,
            n == chars@.len(),
            n % 2 == 0,
            i <= n / 2,
            out@.len() == i,
            forall|j: int| 0 <= j < 2 * i ==> hex_value(#[trigger] chars@[j]) is Some,
            forall|j: int|
                0 <= j < i ==> #[trigger] out@[j] == (16 * hex_value(chars@[2 * j])->0
                    + hex_value(chars@[2 * j + 1])->0) as u8,
        decreases n / 2 - i,
    {
        let hi = digit_value(chars[2 * i]);
        let lo = digit_value(chars[2 * i + 1]);
        match (hi, lo) {
            (Some(h), Some(l)) => {
                out.push(h * 16 + l);
            },
            _ => {
                assert(hex_value(text@[2 * i as int]) is None || hex_value(text@[2 * i + 1]) is None);
                return None;
            },
        }
        i = i + 1;
    }
    assert(forall|j: int| 0 <= j < text@.len() ==> hex_value(#[trigger] text@[j]) is Some);
    assert(out@ =~= hex_decoding(text@)->0);
    Some(out)
}

/// The bytes an optional vector holds.
pub open spec fn bytes_opt(r: Option<Vec<u8>>) -> Option<Seq<u8>> {
    match r {
        Some(v) => Some(v@),
        None => None,
    }
}

/// Decoding the encoding of any bytes gives the bytes back.
pub proof fn law_decode_encode(b: Seq<u8>)
    ensures
        hex_decoding(hex_encoding(b)) == Some(b),
{
    let s = hex_encoding(b);
    assert forall|i: int| 0 <= i < s.len() implies #[trigger] hex_value(s[i]) == Some(
        if i % 2 == 0 { b[i / 2] / 16 } else { b[i / 2] % 16 } as int) by {
        let n: int = if i % 2 == 0 { b[i / 2] / 16 } else { b[i / 2] % 16 } as int;
        assert(0 <= n < 16);
    }
    assert(!(exists|i: int| 0 <= i < s.len() && #[trigger] hex_value(s[i]) is None));
    let d = hex_decoding(s)->0;
    assert forall|i: int| 0 <= i < b.len() implies d[i] == b[i] by {
        assert(s[2 * i] == hex_digit((b[i] / 16) as int));
        assert(hex_value(s[2 * i]) == Some((b[i] / 16) as int));
        assert(hex_value(s[2 * i + 1]) == Some((b[i] % 16) as int));
        assert(16 * (b[i] / 16) + b[i] % 16 == b[i]);
    }
    assert(d =~= b);
}

} // verus!
