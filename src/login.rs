//! The saved-login file format: `OP1:` followed by the hex digits of the
//! payload's UTF-8 bytes masked with a fixed key.
use vstd::prelude::*;
use crate::text::{chars_of, push_str_chars, string_of, trim, trim_chars};

verus! {

/// Saved login credentials.
pub struct LoginData {
    pub username: String,
    pub password: String,
}

/// The masking key.
pub open spec fn key_seq() -> Seq<u8> {
    seq![111u8, 109, 110, 105, 112, 97, 99, 107, 101, 114, 45, 108, 111, 103, 105, 110, 45, 107, 101, 121]
}

fn key_bytes() -> (r: Vec<u8>)
    ensures
        r@ == key_seq(),
{
    let r: Vec<u8> = vec![111u8, 109, 110, 105, 112, 97, 99, 107, 101, 114, 45, 108, 111, 103, 105, 110, 45, 107, 101, 121];
    assert(r@ =~= key_seq());
    r
}

/// Each byte XOR-ed with the key byte at its position, the key repeated.
pub open spec fn xor_spec(data: Seq<u8>) -> Seq<u8> {
    Seq::new(data.len(), |i: int| data[i] ^ key_seq()[i % 20])
}

/// Masks (or unmasks) bytes with the key.
pub fn xor_bytes(data: &[u8]) -> (r: Vec<u8>)
    ensures
        r@ == xor_spec(data@),
{
    let key = key_bytes();
    let mut out: Vec<u8> = Vec::new();
    let mut i: usize = 0;
    while i < data.len()
        invariant
            key@ == key_seq(),
            i <= data@.len(),
            out@ == xor_spec(data@).subrange(0, i as int),
        decreases data@.len() - i,
    {
        out.push(data[i] ^ key[i % 20]);
        i = i + 1;
        assert(out@ =~= xor_spec(data@).subrange(0, i as int));
    }
    assert(xor_spec(data@).subrange(0, data@.len() as int) =~= xor_spec(data@));
    out
}

/// The lower-case hex digit of a value below 16.
pub open spec fn hex_digit(v: int) -> char {
    if v < 10 {
        (('0' as u8) + (v as u8)) as char
    } else {
        (('a' as u8) + ((v - 10) as u8)) as char
    }
}

/// Two lower-case hex digits per byte.
pub open spec fn hex_of(bytes: Seq<u8>) -> Seq<char>
    decreases bytes.len(),
{
    if bytes.len() == 0 {
        seq![]
    } else {
        hex_of(bytes.drop_last()) + seq![
            hex_digit(bytes.last() as int / 16),
            hex_digit(bytes.last() as int % 16),
        ]
    }
}

fn hex_digit_exec(v: u8) -> (r: char)
    requires
        v < 16,
    ensures
        r == hex_digit(v as int),
{
    if v < 10 {
        (('0' as u8) + v) as char
    } else {
        (('a' as u8) + (v - 10)) as char
    }
}

/// Writes bytes as lower-case hex, two digits each.
pub fn encode_hex(bytes: &[u8]) -> (r: String)
    ensures
        r@ == hex_of(bytes@),
{
    let mut out: Vec<char> = Vec::new();
    let mut i: usize = 0;
    while i < bytes.len()
        invariant
            i <= bytes@.len(),
            out@ == hex_of(bytes@.subrange(0, i as int)),
        decreases bytes@.len() - i,
    {
        assert(bytes@.subrange(0, i + 1).drop_last() =~= bytes@.subrange(0, i as int));
        let b = bytes[i];
        out.push(hex_digit_exec(b / 16));
        out.push(hex_digit_exec(b % 16));
        i = i + 1;
        assert(out@ =~= hex_of(bytes@.subrange(0, i as int)));
    }
    assert(bytes@.subrange(0, bytes@.len() as int) =~= bytes@);
    string_of(&out)
}

/// The value of a hex digit of either case.
pub open spec fn hex_value(c: char) -> Option<int> {
    if '0' <= c && c <= '9' {
        Some(c as int - '0' as int)
    } else if 'a' <= c && c <= 'f' {
        Some(c as int - 'a' as int + 10)
    } else if 'A' <= c && c <= 'F' {
        Some(c as int - 'A' as int + 10)
    } else {
        None
    }
}

/// A pair of characters read as a byte in base 16: two digits, or a `+` and one digit.
pub open spec fn hex_pair(a: char, b: char) -> Option<u8> {
    match (hex_value(a), hex_value(b)) {
        (Some(x), Some(y)) => Some((x * 16 + y) as u8),
        (None, Some(y)) => if a == '+' {
            Some(y as u8)
        } else {
            None
        },
        _ => None,
    }
}

/// The bytes of a hex text, pair by pair; `None` on an odd length or a bad pair.
pub open spec fn unhex(s: Seq<char>) -> Option<Seq<u8>>
    decreases s.len(),
{
    if s.len() % 2 != 0 {
        None
    } else if s.len() == 0 {
        Some(seq![])
    } else {
        match (unhex(s.subrange(0, s.len() - 2)), hex_pair(s[s.len() - 2], s[s.len() - 1])) {
            (Some(p), Some(b)) => Some(p.push(b)),
            _ => None,
        }
    }
}

fn hex_value_exec(c: char) -> (r: Option<u8>)
    ensures
        r matches Some(v) ==> hex_value(c) == Some(v as int) && v < 16,
        r is None ==> hex_value(c) is None,
{
    if '0' <= c && c <= '9' {
        Some((c as u32 - '0' as u32) as u8)
    } else if 'a' <= c && c <= 'f' {
        Some((c as u32 - 'a' as u32 + 10) as u8)
    } else if 'A' <= c && c <= 'F' {
        Some((c as u32 - 'A' as u32 + 10) as u8)
    } else {
        None
    }
}

fn hex_pair_exec(a: char, b: char) -> (r: Option<u8>)
    ensures
        r == hex_pair(a, b),
{
    match (hex_value_exec(a), hex_value_exec(b)) {
        (Some(x), Some(y)) => Some(x * 16 + y),
        (None, Some(y)) => if a == '+' {
            Some(y)
        } else {
            None
        },
        _ => None,
    }
}

proof fn lemma_unhex_prefix(s: Seq<char>, k: int)
    requires
        0 <= k <= s.len(),
        k % 2 == 0,
        s.len() % 2 == 0,
        unhex(s.subrange(0, k)) is None,
    ensures
        unhex(s) is None,
    decreases s.len() - k,
{
    if k < s.len() {
        let t = s.subrange(0, k + 2);
        assert(t.subrange(0, k) =~= s.subrange(0, k));
        lemma_unhex_prefix(s, k + 2);
    } else {
        assert(s.subrange(0, k) =~= s);
    }
}

/// Reads hex text back into bytes.
pub fn decode_hex(input: &str) -> (r: Result<Vec<u8>, String>)
    ensures
        r matches Ok(v) ==> unhex(input@) == Some(v@),
        r is Err ==> unhex(input@) is None,
{
    let s = chars_of(input);
    if s.len() % 2 != 0 {
        return Err("Invalid hex payload length.".to_string());
    }
    let mut out: Vec<u8> = Vec::new();
    let mut i: usize = 0;
    while i < s.len()
        invariant
            s@ == input@,
            s@.len() % 2 == 0,
            i % 2 == 0,
            i <= s@.len(),
            unhex(s@.subrange(0, i as int)) == Some(out@),
        decreases s@.len() - i,
    {
        let ghost t = s@.subrange(0, i + 2);
        assert(t.subrange(0, i as int) =~= s@.subrange(0, i as int));
        match hex_pair_exec(s[i], s[i + 1]) {
            Some(b) => {
                out.push(b);
            },
            None => {
                proof {
                    lemma_unhex_prefix(s@, i + 2);
                }
                let mut msg: Vec<char> = Vec::new();
                push_str_chars(&mut msg, "Invalid hex payload at ");
                crate::text::push_decimal(&mut msg, i as u64);
                push_str_chars(&mut msg, ": invalid digit found in string");
                return Err(string_of(&msg));
            },
        }
        i = i + 2;
    }
    assert(s@.subrange(0, s@.len() as int) =~= s@);
    Ok(out)
}

/// The saved form of a payload.
pub open spec fn sealed(plain: Seq<char>) -> Seq<char> {
    "OP1:"@ + hex_of(xor_spec(vstd::utf8::encode_utf8(plain)))
}

/// Masks a payload and writes it in the saved form.
pub fn encrypt_payload(plain_text: &str) -> (r: String)
    ensures
        r@ == sealed(plain_text@),
{
    let masked = xor_bytes(plain_text.as_bytes());
    let hex = encode_hex(masked.as_slice());
    let mut out: Vec<char> = Vec::new();
    push_str_chars(&mut out, "OP1:");
    push_str_chars(&mut out, hex.as_str());
    string_of(&out)
}

/// Relies on `String::from_utf8`: `Ok` exactly for well-formed UTF-8, with the
/// characters it encodes.
#[verifier::external_body]
fn utf8_string(bytes: Vec<u8>) -> (r: Option<String>)
    ensures
        r is Some <==> vstd::utf8::valid_utf8(bytes@),
        r matches Some(s) ==> s@ == vstd::utf8::decode_utf8(bytes@),
{
    String::from_utf8(bytes).ok()
}

/// The payload of a saved form: trimmed, `OP1:`-prefixed, hex of masked UTF-8.
pub open spec fn unsealed(payload: Seq<char>) -> Option<Seq<char>> {
    let t = trim(payload);
    if t.len() >= 4 && crate::text::has_at(t, 0, "OP1:"@) {
        match unhex(t.subrange(4, t.len() as int)) {
            Some(b) => if vstd::utf8::valid_utf8(xor_spec(b)) {
                Some(vstd::utf8::decode_utf8(xor_spec(b)))
            } else {
                None
            },
            None => None,
        }
    } else {
        None
    }
}

/// Reads a payload back from its saved form.
pub fn decrypt_payload(payload: &str) -> (r: Result<String, String>)
    ensures
        r matches Ok(s) ==> unsealed(payload@) == Some(s@),
        r is Err ==> unsealed(payload@) is None,
{
    let t = trim_chars(chars_of(payload).as_slice());
    let prefix = chars_of("OP1:");
    proof {
        reveal_strlit("OP1:");
    }
    if !(t.len() >= 4 && crate::text::matches_at(t.as_slice(), 0, prefix.as_slice())) {
        return Err("Unsupported login data format.".to_string());
    }
    let hex = string_of(&crate::text::slice_chars(t.as_slice(), 4, t.len()));
    let bytes = match decode_hex(hex.as_str()) {
        Ok(b) => b,
        Err(e) => return Err(e),
    };
    let unmasked = xor_bytes(bytes.as_slice());
    match utf8_string(unmasked) {
        Some(s) => Ok(s),
        None => Err("Invalid login data: invalid utf-8 sequence".to_string()),
    }
}

} // verus!
