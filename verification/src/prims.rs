//! Primitive field decoders: fixed-width little-endian integers, fixed-size
//! byte arrays, and Bitcoin's variable-length integer.
//!
//! Every decoder takes the whole buffer and a position, and returns the value
//! together with the position just past it; threading that position is the
//! only state a composite decoder carries.

use vstd::prelude::*;

use crate::errors::DecodeError;

verus! {

/// The value of two little-endian bytes at `pos`.
pub open spec fn le16(s: Seq<u8>, pos: int) -> int {
    s[pos] + 0x100 * s[pos + 1]
}

/// The value of four little-endian bytes at `pos`.
pub open spec fn le32(s: Seq<u8>, pos: int) -> int {
    s[pos] + 0x100 * s[pos + 1] + 0x10000 * s[pos + 2] + 0x1000000 * s[pos + 3]
}

/// The value of eight little-endian bytes at `pos`.
pub open spec fn le64(s: Seq<u8>, pos: int) -> int {
    s[pos] + 0x100 * s[pos + 1] + 0x10000 * s[pos + 2] + 0x1000000 * s[pos + 3]
        + 0x100000000 * s[pos + 4] + 0x10000000000 * s[pos + 5]
        + 0x1000000000000 * s[pos + 6] + 0x100000000000000 * s[pos + 7]
}

/// The value of four little-endian bytes at `pos`, read as a two's-complement
/// signed integer.
pub open spec fn le32_signed(s: Seq<u8>, pos: int) -> int {
    if le32(s, pos) < 0x80000000 {
        le32(s, pos)
    } else {
        le32(s, pos) - 0x100000000
    }
}

/// Decodes one byte.
pub fn parse_u8(bytes: &Vec<u8>, pos: usize) -> (r: Result<(u8, usize), DecodeError>)
    requires
        pos <= bytes@.len(),
    ensures
        match r {
            Ok((v, end)) => pos + 1 <= bytes@.len() && v == bytes@[pos as int] && end == pos + 1,
            Err(e) => bytes@.len() < pos + 1 && e == DecodeError::TruncatedInput,
        },
{
    if bytes.len() - pos < 1 {
        return Err(DecodeError::TruncatedInput);
    }
    Ok((bytes[pos], pos + 1))
}

/// Decodes a little-endian unsigned 32-bit integer.
pub fn parse_u32(bytes: &Vec<u8>, pos: usize) -> (r: Result<(u32, usize), DecodeError>)
    requires
        pos <= bytes@.len(),
    ensures
        match r {
            Ok((v, end)) => pos + 4 <= bytes@.len() && v as int == le32(bytes@, pos as int) && end == pos + 4,
            Err(e) => bytes@.len() < pos + 4 && e == DecodeError::TruncatedInput,
        },
{
    if bytes.len() - pos < 4 {
        return Err(DecodeError::TruncatedInput);
    }
    let v = bytes[pos] as u32 + 0x100 * (bytes[pos + 1] as u32) + 0x10000 * (bytes[pos + 2] as u32)
        + 0x1000000 * (bytes[pos + 3] as u32);
    Ok((v, pos + 4))
}

/// Decodes a little-endian two's-complement signed 32-bit integer.
pub fn parse_i32(bytes: &Vec<u8>, pos: usize) -> (r: Result<(i32, usize), DecodeError>)
    requires
        pos <= bytes@.len(),
    ensures
        match r {
            Ok((v, end)) => pos + 4 <= bytes@.len() && v as int == le32_signed(bytes@, pos as int) && end == pos + 4,
            Err(e) => bytes@.len() < pos + 4 && e == DecodeError::TruncatedInput,
        },
{
    let (u, end) = match parse_u32(bytes, pos) {
        Ok(x) => x,
        Err(e) => {
            return Err(e);
        },
    };
    let v: i32 = if u < 0x80000000 {
        u as i32
    } else {
        // Two's complement: the represented value is u - 2^32. Computed
        // without overflowing the magnitude of i32::MIN.
        -((0xFFFFFFFFu32 - u) as i32) - 1
    };
    Ok((v, end))
}

/// Decodes a little-endian unsigned 64-bit integer.
pub fn parse_u64(bytes: &Vec<u8>, pos: usize) -> (r: Result<(u64, usize), DecodeError>)
    requires
        pos <= bytes@.len(),
    ensures
        match r {
            Ok((v, end)) => pos + 8 <= bytes@.len() && v as int == le64(bytes@, pos as int) && end == pos + 8,
            Err(e) => bytes@.len() < pos + 8 && e == DecodeError::TruncatedInput,
        },
{
    if bytes.len() - pos < 8 {
        return Err(DecodeError::TruncatedInput);
    }
    let v = bytes[pos] as u64 + 0x100 * (bytes[pos + 1] as u64) + 0x10000 * (bytes[pos + 2] as u64)
        + 0x1000000 * (bytes[pos + 3] as u64) + 0x100000000 * (bytes[pos + 4] as u64)
        + 0x10000000000 * (bytes[pos + 5] as u64) + 0x1000000000000 * (bytes[pos + 6] as u64)
        + 0x100000000000000 * (bytes[pos + 7] as u64);
    Ok((v, pos + 8))
}

/// Copies the bytes of `[from, to)` out of the buffer.
pub fn copy_range(bytes: &Vec<u8>, from: usize, to: usize) -> (r: Vec<u8>)
    requires
        from <= to <= bytes@.len(),
    ensures
        r@ == bytes@.subrange(from as int, to as int),
{
    let mut out: Vec<u8> = Vec::new();
    let mut i: usize = from;
    while i < to
        invariant
            from <= i <= to <= bytes@.len(),
            out@ =~= bytes@.subrange(from as int, i as int),
        decreases to - i,
    {
        out.push(bytes[i]);
        proof {
            assert(out@ =~= bytes@.subrange(from as int, i as int + 1));
        }
        i = i + 1;
    }
    proof {
        assert(out@ =~= bytes@.subrange(from as int, to as int));
    }
    out
}

/// Decodes a raw 32-byte hash, with no byte-order interpretation.
pub fn parse_hash32(bytes: &Vec<u8>, pos: usize) -> (r: Result<(Vec<u8>, usize), DecodeError>)
    requires
        pos <= bytes@.len(),
    ensures
        match r {
            Ok((v, end)) => pos + 32 <= bytes@.len() && v@ == bytes@.subrange(pos as int, pos + 32) && end == pos + 32,
            Err(e) => bytes@.len() < pos + 32 && e == DecodeError::TruncatedInput,
        },
{
    if bytes.len() - pos < 32 {
        return Err(DecodeError::TruncatedInput);
    }
    Ok((copy_range(bytes, pos, pos + 32), pos + 32))
}

/// A variable-length unsigned integer as it stands on the wire.
///
/// The width (1, 3, 5 or 9 bytes) is picked by a leading discriminant byte;
/// the decoded value is any `u64`. A value that would fit a shorter encoding
/// is still accepted: the decoder matches permissive wire behavior, not
/// strict consensus rules.
#[derive(Clone, Copy, Debug, PartialEq, Eq, Structural)]
pub struct VarInt(pub u64);

/// What decoding a variable-length integer at `pos` yields: the value and
/// the position just past it, or `TruncatedInput` when fewer bytes follow
/// the discriminant than it requires.
pub open spec fn spec_parse_varint(s: Seq<u8>, pos: int) -> Result<(u64, int), DecodeError> {
    if pos + 1 > s.len() {
        Err(DecodeError::TruncatedInput)
    } else if s[pos] <= 0xFC {
        Ok((s[pos] as u64, pos + 1))
    } else if s[pos] == 0xFD {
        if pos + 3 > s.len() {
            Err(DecodeError::TruncatedInput)
        } else {
            Ok((le16(s, pos + 1) as u64, pos + 3))
        }
    } else if s[pos] == 0xFE {
        if pos + 5 > s.len() {
            Err(DecodeError::TruncatedInput)
        } else {
            Ok((le32(s, pos + 1) as u64, pos + 5))
        }
    } else {
        if pos + 9 > s.len() {
            Err(DecodeError::TruncatedInput)
        } else {
            Ok((le64(s, pos + 1) as u64, pos + 9))
        }
    }
}

impl VarInt {
    /// Decodes a variable-length integer: the first byte picks the width.
    pub fn parse(bytes: &Vec<u8>, pos: usize) -> (r: Result<(VarInt, usize), DecodeError>)
        requires
            pos <= bytes@.len(),
        ensures
            match r {
                Ok((v, end)) => spec_parse_varint(bytes@, pos as int) == Ok::<(u64, int), DecodeError>((v.0, end as int))
                    && pos < end <= bytes@.len(),
                Err(e) => spec_parse_varint(bytes@, pos as int) == Err::<(u64, int), DecodeError>(e),
            },
    {
        if bytes.len() - pos < 1 {
            return Err(DecodeError::TruncatedInput);
        }
        let tag = bytes[pos];
        if tag <= 0xFC {
            Ok((VarInt(tag as u64), pos + 1))
        } else if tag == 0xFD {
            if bytes.len() - (pos + 1) < 2 {
                return Err(DecodeError::TruncatedInput);
            }
            let v = bytes[pos + 1] as u64 + 0x100 * (bytes[pos + 2] as u64);
            Ok((VarInt(v), pos + 3))
        } else if tag == 0xFE {
            if bytes.len() - (pos + 1) < 4 {
                return Err(DecodeError::TruncatedInput);
            }
            let v = bytes[pos + 1] as u64 + 0x100 * (bytes[pos + 2] as u64)
                + 0x10000 * (bytes[pos + 3] as u64) + 0x1000000 * (bytes[pos + 4] as u64);
            Ok((VarInt(v), pos + 5))
        } else {
            match parse_u64(bytes, pos + 1) {
                Ok((v, end)) => Ok((VarInt(v), end)),
                Err(e) => Err(e),
            }
        }
    }
}

} // verus!
