//! Hex codec: the boundary between the textual transport encoding and the
//! raw byte buffer every other decoder consumes.

use vstd::prelude::*;

use crate::errors::DecodeError;

verus! {

/// A character that may appear in valid hex text: `0`-`9`, `a`-`f`, `A`-`F`.
pub open spec fn is_hex_digit(c: char) -> bool {
    ('0' <= c && c <= '9') || ('a' <= c && c <= 'f') || ('A' <= c && c <= 'F')
}

/// The value of a hex digit, in `0..16` whenever `is_hex_digit(c)` holds.
pub open spec fn hex_digit_value(c: char) -> int {
    if '0' <= c && c <= '9' {
        c as int - 48
    } else if 'a' <= c && c <= 'f' {
        c as int - 87
    } else {
        c as int - 55
    }
}

/// The lowercase hex digit for a value in `0..16`.
pub open spec fn hex_char(v: int) -> char {
    if v < 10 {
        (v + 48) as char
    } else {
        (v + 87) as char
    }
}

/// Valid hex text: even length, every character a hex digit.
pub open spec fn valid_hex(s: Seq<char>) -> bool {
    s.len() % 2 == 0 && forall|i: int| 0 <= i < s.len() ==> is_hex_digit(#[trigger] s[i])
}

/// The bytes a hex text stands for: each pair of digits one byte, the first
/// digit the high nibble.
pub open spec fn hex_to_bytes(s: Seq<char>) -> Seq<u8> {
    Seq::new((s.len() / 2) as nat, |i: int| (hex_digit_value(s[2 * i]) * 16 + hex_digit_value(s[2 * i + 1])) as u8)
}

/// The lowercase hex text for a byte sequence: two digits per byte.
pub open spec fn bytes_to_hex(b: Seq<u8>) -> Seq<char> {
    Seq::new((b.len() * 2) as nat, |i: int| if i % 2 == 0 { hex_char(b[i / 2] as int / 16) } else { hex_char(b[i / 2] as int % 16) })
}

/// A hex text with every uppercase digit folded to lowercase.
pub open spec fn lower_hex(s: Seq<char>) -> Seq<char> {
    Seq::new(s.len(), |i: int| if 'A' <= s[i] && s[i] <= 'F' { (s[i] as int + 32) as char } else { s[i] })
}

/// The value of one character as a hex digit, or `None` where it is none.
fn hex_value_of(c: char) -> (r: Option<u8>)
    ensures
        match r {
            Some(v) => is_hex_digit(c) && v < 16 && v as int == hex_digit_value(c),
            None => !is_hex_digit(c),
        },
{
    let u = c as u32;
    if 48 <= u && u <= 57 {
        Some((u - 48) as u8)
    } else if 97 <= u && u <= 102 {
        Some((u - 87) as u8)
    } else if 65 <= u && u <= 70 {
        Some((u - 55) as u8)
    } else {
        None
    }
}

/// Decodes hex text into the bytes it stands for.
///
/// Succeeds exactly on valid hex text: even length, hex digits only, either
/// case accepted. Anything else is `MalformedHex`.
pub fn from_hex(s: &str) -> (r: Result<Vec<u8>, DecodeError>)
    ensures
        match r {
            Ok(bytes) => valid_hex(s@) && bytes@ == hex_to_bytes(s@),
            Err(e) => !valid_hex(s@) && e == DecodeError::MalformedHex,
        },
{
    let n = s.unicode_len();
    if n % 2 != 0 {
        return Err(DecodeError::MalformedHex);
    }
    let mut out: Vec<u8> = Vec::new();
    let mut i: usize = 0;
    while i < n
        invariant
            n == s@.len(),
            n % 2 == 0,
            i % 2 == 0,
            i <= n,
            forall|j: int| 0 <= j < i ==> is_hex_digit(#[trigger] s@[j]),
            out@.len() == i / 2,
            forall|j: int| 0 <= j < i / 2 ==> out@[j] == #[trigger] hex_to_bytes(s@)[j],
        decreases n - i,
    {
        let c0 = s.get_char(i);
        let c1 = s.get_char(i + 1);
        let v0 = hex_value_of(c0);
        let v1 = hex_value_of(c1);
        match (v0, v1) {
            (Some(h), Some(l)) => {
                out.push(h * 16 + l);
            },
            _ => {
                return Err(DecodeError::MalformedHex);
            },
        }
        i = i + 2;
    }
    proof {
        assert(out@ =~= hex_to_bytes(s@));
    }
    Ok(out)
}

/// Appends the lowercase hex digit for a value below 16.
fn push_hex_char(out: &mut String, v: u8)
    requires
        v < 16,
    ensures
        final(out)@ == old(out)@ + seq![hex_char(v as int)],
{
    let d: &str = match v {
        0 => "0",
        1 => "1",
        2 => "2",
        3 => "3",
        4 => "4",
        5 => "5",
        6 => "6",
        7 => "7",
        8 => "8",
        9 => "9",
        10 => "a",
        11 => "b",
        12 => "c",
        13 => "d",
        14 => "e",
        _ => "f",
    };
    proof {
        reveal_strlit("0");
        reveal_strlit("1");
        reveal_strlit("2");
        reveal_strlit("3");
        reveal_strlit("4");
        reveal_strlit("5");
        reveal_strlit("6");
        reveal_strlit("7");
        reveal_strlit("8");
        reveal_strlit("9");
        reveal_strlit("a");
        reveal_strlit("b");
        reveal_strlit("c");
        reveal_strlit("d");
        reveal_strlit("e");
        reveal_strlit("f");
        assert(d@ =~= seq![hex_char(v as int)]);
    }
    out.append(d);
}

/// Encodes bytes as lowercase hex text, two digits per byte.
///
/// Total: every byte sequence has a hex form.
pub fn to_hex(bytes: &Vec<u8>) -> (r: String)
    ensures
        r@ == bytes_to_hex(bytes@),
{
    let mut out = String::new();
    let n = bytes.len();
    let mut i: usize = 0;
    while i < n
        invariant
            n == bytes@.len(),
            i <= n,
            out@ =~= bytes_to_hex(bytes@).subrange(0, 2 * i as int),
        decreases n - i,
    {
        let b = bytes[i];
        push_hex_char(&mut out, b / 16);
        push_hex_char(&mut out, b % 16);
        i = i + 1;
        proof {
            assert(out@ =~= bytes_to_hex(bytes@).subrange(0, 2 * i as int));
        }
    }
    proof {
        assert(bytes_to_hex(bytes@).subrange(0, 2 * n as int) =~= bytes_to_hex(bytes@));
    }
    out
}

/// Law: encoding never loses a byte. For every byte sequence the hex form is
/// valid hex text and decodes back to the same bytes.
pub proof fn lemma_hex_round_trip(b: Seq<u8>)
    ensures
        valid_hex(bytes_to_hex(b)),
        hex_to_bytes(bytes_to_hex(b)) == b,
{
    let h = bytes_to_hex(b);
    assert forall|i: int| 0 <= i < h.len() implies is_hex_digit(#[trigger] h[i]) by {
        let v = if i % 2 == 0 { b[i / 2] as int / 16 } else { b[i / 2] as int % 16 };
        assert(0 <= v < 16);
    }
    assert forall|i: int| 0 <= i < b.len() implies hex_to_bytes(h)[i] == b[i] by {
        assert(h[2 * i] == hex_char(b[i] as int / 16));
        assert(h[2 * i + 1] == hex_char(b[i] as int % 16));
        lemma_value_of_hex_char(b[i] as int / 16);
        lemma_value_of_hex_char(b[i] as int % 16);
        assert(b[i] as int / 16 * 16 + b[i] as int % 16 == b[i] as int) by {
            vstd::arithmetic::div_mod::lemma_fundamental_div_mod(b[i] as int, 16);
        }
    }
    assert(hex_to_bytes(h) =~= b);
}

/// Reading back the digit written for a value below 16 gives the value.
proof fn lemma_value_of_hex_char(v: int)
    requires
        0 <= v < 16,
    ensures
        is_hex_digit(hex_char(v)),
        hex_digit_value(hex_char(v)) == v,
{
}

/// Law: decoding loses only the case of the digits. Every valid hex text is
/// the lowercase form of itself once re-encoded.
pub proof fn lemma_hex_decode_encode(s: Seq<char>)
    requires
        valid_hex(s),
    ensures
        bytes_to_hex(hex_to_bytes(s)) == lower_hex(s),
{
    let b = hex_to_bytes(s);
    assert forall|i: int| 0 <= i < s.len() implies bytes_to_hex(b)[i] == lower_hex(s)[i] by {
        let p = i / 2;
        vstd::arithmetic::div_mod::lemma_fundamental_div_mod(i, 2);
        assert(is_hex_digit(s[2 * p]));
        assert(is_hex_digit(s[2 * p + 1]));
        let hi = hex_digit_value(s[2 * p]);
        let lo = hex_digit_value(s[2 * p + 1]);
        assert(0 <= hi < 16 && 0 <= lo < 16);
        assert(b[p] == (hi * 16 + lo) as u8);
        assert(b[p] as int / 16 == hi && b[p] as int % 16 == lo) by {
            vstd::arithmetic::div_mod::lemma_fundamental_div_mod((hi * 16 + lo) as int, 16);
        }
        lemma_hex_char_lower(s[2 * p]);
        lemma_hex_char_lower(s[2 * p + 1]);
    }
    assert(bytes_to_hex(b) =~= lower_hex(s));
}

/// Re-encoding the value of a hex digit gives the digit itself, lowercased.
proof fn lemma_hex_char_lower(c: char)
    requires
        is_hex_digit(c),
    ensures
        hex_char(hex_digit_value(c)) == (if 'A' <= c && c <= 'F' { (c as int + 32) as char } else { c }),
{
}

} // verus!
