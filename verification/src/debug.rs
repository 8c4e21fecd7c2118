//! The debugging texts of algorithms and errors, in the notation Rust's
//! `{:?}` uses: variants by name, fields as `name: value`, texts quoted with
//! escapes, byte strings as lists of numbers.
use vstd::prelude::*;

use crate::hex::hex_digit;
use crate::text::{chars_of, decimal, push_char, push_decimal};
use crate::types::{Algorithm, SeetleError};

verus! {

/// Up to two lowercase hex digits of a number below 256, without leading
/// zeros.
pub open spec fn small_hex(n: nat) -> Seq<char> {
    if n < 16 {
        seq![hex_digit(n as int)]
    } else {
        seq![hex_digit((n / 16) as int), hex_digit((n % 16) as int)]
    }
}

/// A control character: below U+0020, or U+007F to U+009F.
pub open spec fn is_control(c: char) -> bool {
    (c as u32) < 0x20 || (0x7f <= (c as u32) && (c as u32) <= 0x9f)
}

/// How one character is written inside a quoted text.
pub open spec fn escape_char(c: char) -> Seq<char> {
    if c == '"' {
        seq!['\\', '"']
    } else if c == '\\' {
        seq!['\\', '\\']
    } else if c == '\n' {
        seq!['\\', 'n']
    } else if c == '\r' {
        seq!['\\', 'r']
    } else if c == '\t' {
        seq!['\\', 't']
    } else if c == '\0' {
        seq!['\\', '0']
    } else if is_control(c) {
        seq!['\\', 'u', '{'] + small_hex(c as nat) + seq!['}']
    } else {
        seq![c]
    }
}

/// A text with each character escaped.
pub open spec fn escaped(s: Seq<char>) -> Seq<char>
    decreases s.len(),
{
    if s.len() == 0 {
        Seq::empty()
    } else {
        escaped(s.drop_last()) + escape_char(s.last())
    }
}

/// A text between double quotes, escaped.
pub open spec fn quoted(s: Seq<char>) -> Seq<char> {
    seq!['"'] + escaped(s) + seq!['"']
}

/// The numbers of a byte string, separated by `, `.
pub open spec fn byte_items(b: Seq<u8>) -> Seq<char>
    decreases b.len(),
{
    if b.len() == 0 {
        Seq::empty()
    } else if b.len() == 1 {
        decimal(b[0] as nat)
    } else {
        byte_items(b.drop_last()) + ", "@ + decimal(b.last() as nat)
    }
}

/// A byte string as a list: `[1, 0, 1]`.
pub open spec fn bytes_debug(b: Seq<u8>) -> Seq<char> {
    seq!['['] + byte_items(b) + seq![']']
}

/// An optional text: `None` or `Some("..")`.
pub open spec fn opt_text_debug(o: Option<String>) -> Seq<char> {
    match o {
        Some(t) => "Some("@ + quoted(t@) + ")"@,
        None => "None"@,
    }
}

/// An optional byte string: `None` or `Some([..])`.
pub open spec fn opt_bytes_debug(o: Option<Vec<u8>>) -> Seq<char> {
    match o {
        Some(b) => "Some("@ + bytes_debug(b@) + ")"@,
        None => "None"@,
    }
}

/// An optional number: `None` or `Some(n)`.
pub open spec fn opt_num_debug(o: Option<u8>) -> Seq<char> {
    match o {
        Some(n) => "Some("@ + decimal(n as nat) + ")"@,
        None => "None"@,
    }
}

/// The debugging text of an algorithm.
pub open spec fn algorithm_debug_text(a: Algorithm) -> Seq<char> {
    match a {
        Algorithm::Ecdsa { name, named_curve, hash } => "Ecdsa { name: "@ + quoted(name@)
            + ", named_curve: "@ + quoted(named_curve@) + ", hash: "@ + opt_text_debug(hash)
            + " }"@,
        Algorithm::RsaPss { name, modulus_length, public_exponent, hash, salt_length } =>
            "RsaPss { name: "@ + quoted(name@) + ", modulus_length: "@ + decimal(
            modulus_length as nat,
        ) + ", public_exponent: "@ + bytes_debug(public_exponent@) + ", hash: "@ + quoted(hash@)
            + ", salt_length: "@ + decimal(salt_length as nat) + " }"@,
        Algorithm::AesGcm { name, length, iv, additional_data, tag_length } => "AesGcm { name: "@
            + quoted(name@) + ", length: "@ + decimal(length as nat) + ", iv: "@ + bytes_debug(iv@)
            + ", additional_data: "@ + opt_bytes_debug(additional_data) + ", tag_length: "@
            + opt_num_debug(tag_length) + " }"@,
        Algorithm::Generic { name } => "Generic { name: "@ + quoted(name@) + " }"@,
        Algorithm::Raw { length } => "Raw { length: "@ + decimal(length as nat) + " }"@,
        Algorithm::Ed25519 { name } => "Ed25519 { name: "@ + quoted(name@) + " }"@,
        Algorithm::Ecdh { name, public_key } => "Ecdh { name: "@ + quoted(name@)
            + ", public_key: "@ + bytes_debug(public_key@) + " }"@,
        Algorithm::Hpke { name, public_key, info } => "Hpke { name: "@ + quoted(name@)
            + ", public_key: "@ + opt_bytes_debug(public_key) + ", info: "@ + opt_bytes_debug(info)
            + " }"@,
    }
}

/// The debugging text of an error.
pub open spec fn error_debug_text(e: SeetleError) -> Seq<char> {
    match e {
        SeetleError::NotSupported => "NotSupported"@,
        SeetleError::DataError => "DataError"@,
        SeetleError::OperationError(m) => "OperationError("@ + quoted(m@) + ")"@,
        SeetleError::KeyNotFound => "KeyNotFound"@,
        SeetleError::AccessDenied => "AccessDenied"@,
        SeetleError::StorageError(m) => "StorageError("@ + quoted(m@) + ")"@,
    }
}

fn hex_char(n: u32) -> (c: char)
    requires
        n < 16,
    ensures
        c == hex_digit(n as int),
{
    if n < 10 {
        ((n as u8) + 48u8) as char
    } else {
        ((n as u8) + 87u8) as char
    }
}

fn push_escaped_char(out: &mut String, c: char)
    ensures
        final(out)@ == old(out)@ + escape_char(c),
{
    let n: u32 = c as u32;
    if c == '"' {
        push_char(out, '\\');
        push_char(out, '"');
    } else if c == '\\' {
        push_char(out, '\\');
        push_char(out, '\\');
    } else if c == '\n' {
        push_char(out, '\\');
        push_char(out, 'n');
    } else if c == '\r' {
        push_char(out, '\\');
        push_char(out, 'r');
    } else if c == '\t' {
        push_char(out, '\\');
        push_char(out, 't');
    } else if c == '\0' {
        push_char(out, '\\');
        push_char(out, '0');
    } else if n < 0x20 || (0x7f <= n && n <= 0x9f) {
        push_char(out, '\\');
        push_char(out, 'u');
        push_char(out, '{');
        if n < 16 {
            push_char(out, hex_char(n));
        } else {
            push_char(out, hex_char(n / 16));
            push_char(out, hex_char(n % 16));
        }
        push_char(out, '}');
    } else {
        push_char(out, c);
    }
    proof {
        assert(final(out)@ =~= old(out)@ + escape_char(c));
    }
}

/// Appends a text between double quotes, escaped.
fn push_quoted(out: &mut String, s: &str)
    ensures
        final(out)@ == old(out)@ + quoted(s@),
{
    let chars = chars_of(s);
    let ghost start = old(out)@;
    push_char(out, '"');
    let mut i: usize = 0;
    while i < chars.len()
        invariant
            i <= chars@.len(),
            out@ == start + seq!['"'] + escaped(chars@.take(i as int)),
        decreases chars@.len() - i,
    {
        proof {
            assert(chars@.take(i + 1).drop_last() =~= chars@.take(i as int));
            assert(chars@.take(i + 1).last() == chars@[i as int]);
        }
        push_escaped_char(out, chars[i]);
        i = i + 1;
        proof {
            assert(out@ =~= start + seq!['"'] + escaped(chars@.take(i as int)));
        }
    }
    push_char(out, '"');
    proof {
        assert(chars@.take(i as int) =~= s@);
        assert(out@ =~= start + quoted(s@));
    }
}

/// Appends a byte string as a list.
fn push_bytes(out: &mut String, b: &[u8])
    ensures
        final(out)@ == old(out)@ + bytes_debug(b@),
{
    let ghost start = old(out)@;
    push_char(out, '[');
    let mut i: usize = 0;
    while i < b.len()
        invariant
            i <= b@.len(),
            out@ == start + seq!['['] + byte_items(b@.take(i as int)),
        decreases b@.len() - i,
    {
        proof {
            assert(b@.take(i + 1).drop_last() =~= b@.take(i as int));
            assert(b@.take(i + 1).last() == b@[i as int]);
            if i == 0 {
                assert(b@.take(1)[0] == b@[0]);
            }
        }
        if i > 0 {
            out.append(", ");
        }
        push_decimal(out, b[i] as u32);
        i = i + 1;
        proof {
            assert(out@ =~= start + seq!['['] + byte_items(b@.take(i as int)));
        }
    }
    push_char(out, ']');
    proof {
        assert(b@.take(i as int) =~= b@);
        assert(out@ =~= start + bytes_debug(b@));
    }
}

fn push_opt_text(out: &mut String, o: &Option<String>)
    ensures
        final(out)@ == old(out)@ + opt_text_debug(*o),
{
    match o {
        Some(t) => {
            out.append("Some(");
            push_quoted(out, t.as_str());
            out.append(")");
        },
        None => {
            out.append("None");
        },
    }
}

fn push_opt_bytes(out: &mut String, o: &Option<Vec<u8>>)
    ensures
        final(out)@ == old(out)@ + opt_bytes_debug(*o),
{
    match o {
        Some(b) => {
            out.append("Some(");
            push_bytes(out, b.as_slice());
            out.append(")");
        },
        None => {
            out.append("None");
        },
    }
}

fn push_opt_num(out: &mut String, o: Option<u8>)
    ensures
        final(out)@ == old(out)@ + opt_num_debug(o),
{
    match o {
        Some(n) => {
            out.append("Some(");
            push_decimal(out, n as u32);
            out.append(")");
        },
        None => {
            out.append("None");
        },
    }
}

impl Algorithm {
    /// The debugging text of the algorithm, as `{:?}` writes it.
    pub fn debug_text(&self) -> (s: String)
        ensures
            s@ == algorithm_debug_text(*self),
    {
        match self {
            Algorithm::Ecdsa { name, named_curve, hash } => {
                let mut s = String::from_str("Ecdsa { name: ");
                push_quoted(&mut s, name.as_str());
                s.append(", named_curve: ");
                push_quoted(&mut s, named_curve.as_str());
                s.append(", hash: ");
                push_opt_text(&mut s, hash);
                s.append(" }");
                s
            },
            Algorithm::RsaPss { name, modulus_length, public_exponent, hash, salt_length } => {
                let mut s = String::from_str("RsaPss { name: ");
                push_quoted(&mut s, name.as_str());
                s.append(", modulus_length: ");
                push_decimal(&mut s, *modulus_length);
                s.append(", public_exponent: ");
                push_bytes(&mut s, public_exponent.as_slice());
                s.append(", hash: ");
                push_quoted(&mut s, hash.as_str());
                s.append(", salt_length: ");
                push_decimal(&mut s, *salt_length);
                s.append(" }");
                s
            },
            Algorithm::AesGcm { name, length, iv, additional_data, tag_length } => {
                let mut s = String::from_str("AesGcm { name: ");
                push_quoted(&mut s, name.as_str());
                s.append(", length: ");
                push_decimal(&mut s, *length as u32);
                s.append(", iv: ");
                push_bytes(&mut s, iv.as_slice());
                s.append(", additional_data: ");
                push_opt_bytes(&mut s, additional_data);
                s.append(", tag_length: ");
                push_opt_num(&mut s, *tag_length);
                s.append(" }");
                s
            },
            Algorithm::Generic { name } => {
                let mut s = String::from_str("Generic { name: ");
                push_quoted(&mut s, name.as_str());
                s.append(" }");
                s
            },
            Algorithm::Raw { length } => {
                let mut s = String::from_str("Raw { length: ");
                push_decimal(&mut s, *length);
                s.append(" }");
                s
            },
            Algorithm::Ed25519 { name } => {
                let mut s = String::from_str("Ed25519 { name: ");
                push_quoted(&mut s, name.as_str());
                s.append(" }");
                s
            },
            Algorithm::Ecdh { name, public_key } => {
                let mut s = String::from_str("Ecdh { name: ");
                push_quoted(&mut s, name.as_str());
                s.append(", public_key: ");
                push_bytes(&mut s, public_key.as_slice());
                s.append(" }");
                s
            },
            Algorithm::Hpke { name, public_key, info } => {
                let mut s = String::from_str("Hpke { name: ");
                push_quoted(&mut s, name.as_str());
                s.append(", public_key: ");
                push_opt_bytes(&mut s, public_key);
                s.append(", info: ");
                push_opt_bytes(&mut s, info);
                s.append(" }");
                s
            },
        }
    }
}

impl SeetleError {
    /// The debugging text of the error, as `{:?}` writes it.
    pub fn debug_text(&self) -> (s: String)
        ensures
            s@ == error_debug_text(*self),
    {
        match self {
            SeetleError::NotSupported => String::from_str("NotSupported"),
            SeetleError::DataError => String::from_str("DataError"),
            SeetleError::OperationError(m) => {
                let mut s = String::from_str("OperationError(");
                push_quoted(&mut s, m.as_str());
                s.append(")");
                s
            },
            SeetleError::KeyNotFound => String::from_str("KeyNotFound"),
            SeetleError::AccessDenied => String::from_str("AccessDenied"),
            SeetleError::StorageError(m) => {
                let mut s = String::from_str("StorageError(");
                push_quoted(&mut s, m.as_str());
                s.append(")");
                s
            },
        }
    }
}

/// A character written as itself inside a quoted text.
pub open spec fn plain_char(c: char) -> bool {
    c != '"' && c != '\\' && c != '\n' && c != '\r' && c != '\t' && c != '\0' && !is_control(c)
}

/// A text of plain characters is quoted without escapes.
pub proof fn lemma_escaped_plain(s: Seq<char>)
    requires
        forall|i: int| 0 <= i < s.len() ==> plain_char(#[trigger] s[i]),
    ensures
        escaped(s) == s,
    decreases s.len(),
{
    if s.len() > 0 {
        lemma_escaped_plain(s.drop_last());
        assert(s.last() == s[s.len() - 1]);
        assert(s =~= s.drop_last() + seq![s.last()]);
    }
}

} // verus!
