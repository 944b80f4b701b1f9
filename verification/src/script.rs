//! Script decoder: a byte-counted opcode stream, decoded greedily left to
//! right until the counted region is exhausted.
//!
//! The opcode table is intentionally partial: besides the two push-data
//! forms only six opcodes are recognized, and any other byte value fails
//! with `UnsupportedOpcode`.

use vstd::prelude::*;

use crate::errors::DecodeError;
use crate::prims::{copy_range, spec_parse_varint, VarInt};

verus! {

/// One decoded script opcode.
///
/// `Push` carries the literal data bytes of either push form; the other
/// variants carry no payload.
#[derive(Debug, PartialEq, Eq)]
pub enum OpCode {
    Return,
    Dup,
    Equal,
    CheckSig,
    Hash160,
    EqualVerify,
    Push(Vec<u8>),
}

/// The mathematical model of an opcode: `Push` holds its data as a sequence.
pub enum OpCodeV {
    Return,
    Dup,
    Equal,
    CheckSig,
    Hash160,
    EqualVerify,
    Push(Seq<u8>),
}

impl View for OpCode {
    type V = OpCodeV;

    open spec fn view(&self) -> OpCodeV {
        match self {
            OpCode::Return => OpCodeV::Return,
            OpCode::Dup => OpCodeV::Dup,
            OpCode::Equal => OpCodeV::Equal,
            OpCode::CheckSig => OpCodeV::CheckSig,
            OpCode::Hash160 => OpCodeV::Hash160,
            OpCode::EqualVerify => OpCodeV::EqualVerify,
            OpCode::Push(data) => OpCodeV::Push(data@),
        }
    }
}

/// What decoding one opcode at `pos` inside the script region ending at
/// `limit` yields.
///
/// A byte in `1..=75` pushes that many following bytes; byte 76 reads one
/// length byte and pushes that many; six byte values map to the six bare
/// opcodes; everything else is `UnsupportedOpcode`. A push reaching past
/// `limit` is `TruncatedInput`.
pub open spec fn spec_parse_opcode(s: Seq<u8>, pos: int, limit: int) -> Result<(OpCodeV, int), DecodeError> {
    if pos + 1 > limit {
        Err(DecodeError::TruncatedInput)
    } else {
        let b = s[pos];
        if 1 <= b && b <= 75 {
            if pos + 1 + b <= limit {
                Ok((OpCodeV::Push(s.subrange(pos + 1, pos + 1 + b)), pos + 1 + b))
            } else {
                Err(DecodeError::TruncatedInput)
            }
        } else if b == 76 {
            if pos + 2 > limit {
                Err(DecodeError::TruncatedInput)
            } else if pos + 2 + s[pos + 1] <= limit {
                Ok((OpCodeV::Push(s.subrange(pos + 2, pos + 2 + s[pos + 1])), pos + 2 + s[pos + 1]))
            } else {
                Err(DecodeError::TruncatedInput)
            }
        } else if b == 106 {
            Ok((OpCodeV::Return, pos + 1))
        } else if b == 118 {
            Ok((OpCodeV::Dup, pos + 1))
        } else if b == 135 {
            Ok((OpCodeV::Equal, pos + 1))
        } else if b == 136 {
            Ok((OpCodeV::EqualVerify, pos + 1))
        } else if b == 169 {
            Ok((OpCodeV::Hash160, pos + 1))
        } else if b == 172 {
            Ok((OpCodeV::CheckSig, pos + 1))
        } else {
            Err(DecodeError::UnsupportedOpcode)
        }
    }
}

/// A decoded opcode always ends past where it began and within the region.
pub proof fn lemma_opcode_advances(s: Seq<u8>, pos: int, limit: int)
    ensures
        match spec_parse_opcode(s, pos, limit) {
            Ok((op, end)) => pos < end <= limit,
            Err(_) => true,
        },
{
}

/// What decoding the whole region `[pos, limit)` as an opcode stream yields:
/// the opcodes in order, or the first opcode failure.
pub open spec fn spec_parse_ops(s: Seq<u8>, pos: int, limit: int) -> Result<Seq<OpCodeV>, DecodeError>
    decreases limit - pos,
    when pos <= limit
    via spec_parse_ops_decreases
{
    if pos >= limit {
        Ok(Seq::empty())
    } else {
        match spec_parse_opcode(s, pos, limit) {
            Ok((op, end)) => match spec_parse_ops(s, end, limit) {
                Ok(rest) => Ok(seq![op] + rest),
                Err(e) => Err(e),
            },
            Err(e) => Err(e),
        }
    }
}

#[via_fn]
proof fn spec_parse_ops_decreases(s: Seq<u8>, pos: int, limit: int) {
    lemma_opcode_advances(s, pos, limit);
}

/// An ordered opcode sequence, owned by a transaction input (the signature
/// script) or output (the pubkey script).
#[derive(Debug, PartialEq, Eq)]
pub struct Script(pub Vec<OpCode>);

impl View for Script {
    type V = Seq<OpCodeV>;

    open spec fn view(&self) -> Seq<OpCodeV> {
        self.0@.map_values(|op: OpCode| op@)
    }
}

/// What decoding a script at `pos` yields: a byte-count prefix, then exactly
/// that many bytes decoded as an opcode stream.
pub open spec fn spec_parse_script(s: Seq<u8>, pos: int) -> Result<(Seq<OpCodeV>, int), DecodeError> {
    match spec_parse_varint(s, pos) {
        Ok((l, body)) => if body + l <= s.len() {
            match spec_parse_ops(s, body, body + l) {
                Ok(ops) => Ok((ops, body + l)),
                Err(e) => Err(e),
            }
        } else {
            Err(DecodeError::TruncatedInput)
        },
        Err(e) => Err(e),
    }
}

impl OpCode {
    /// Decodes one opcode at `pos`, never reading past `limit`.
    pub fn parse(bytes: &Vec<u8>, pos: usize, limit: usize) -> (r: Result<(OpCode, usize), DecodeError>)
        requires
            pos <= limit <= bytes@.len(),
        ensures
            match r {
                Ok((op, end)) => spec_parse_opcode(bytes@, pos as int, limit as int)
                    == Ok::<(OpCodeV, int), DecodeError>((op@, end as int)) && pos < end <= limit,
                Err(e) => spec_parse_opcode(bytes@, pos as int, limit as int)
                    == Err::<(OpCodeV, int), DecodeError>(e),
            },
    {
        if limit - pos < 1 {
            return Err(DecodeError::TruncatedInput);
        }
        let b = bytes[pos];
        if 1 <= b && b <= 75 {
            let n = b as usize;
            if limit - (pos + 1) < n {
                return Err(DecodeError::TruncatedInput);
            }
            let data = copy_range(bytes, pos + 1, pos + 1 + n);
            Ok((OpCode::Push(data), pos + 1 + n))
        } else if b == 76 {
            if limit - (pos + 1) < 1 {
                return Err(DecodeError::TruncatedInput);
            }
            let n = bytes[pos + 1] as usize;
            if limit - (pos + 2) < n {
                return Err(DecodeError::TruncatedInput);
            }
            let data = copy_range(bytes, pos + 2, pos + 2 + n);
            Ok((OpCode::Push(data), pos + 2 + n))
        } else if b == 106 {
            Ok((OpCode::Return, pos + 1))
        } else if b == 118 {
            Ok((OpCode::Dup, pos + 1))
        } else if b == 135 {
            Ok((OpCode::Equal, pos + 1))
        } else if b == 136 {
            Ok((OpCode::EqualVerify, pos + 1))
        } else if b == 169 {
            Ok((OpCode::Hash160, pos + 1))
        } else if b == 172 {
            Ok((OpCode::CheckSig, pos + 1))
        } else {
            Err(DecodeError::UnsupportedOpcode)
        }
    }
}

impl Script {
    /// Decodes a script: a byte-length prefix, then exactly that many bytes
    /// as a greedy opcode stream.
    pub fn parse(bytes: &Vec<u8>, pos: usize) -> (r: Result<(Script, usize), DecodeError>)
        requires
            pos <= bytes@.len(),
        ensures
            match r {
                Ok((v, end)) => spec_parse_script(bytes@, pos as int)
                    == Ok::<(Seq<OpCodeV>, int), DecodeError>((v@, end as int)) && pos <= end <= bytes@.len(),
                Err(e) => spec_parse_script(bytes@, pos as int)
                    == Err::<(Seq<OpCodeV>, int), DecodeError>(e),
            },
    {
        let (l, body) = match VarInt::parse(bytes, pos) {
            Ok(x) => x,
            Err(e) => {
                return Err(e);
            },
        };
        if l.0 > (bytes.len() - body) as u64 {
            return Err(DecodeError::TruncatedInput);
        }
        let limit = body + (l.0 as usize);
        let ghost body0 = body as int;
        let mut ops: Vec<OpCode> = Vec::new();
        let mut cur = body;
        while cur < limit
            invariant
                body0 <= cur <= limit <= bytes@.len(),
                spec_parse_varint(bytes@, pos as int) == Ok::<(u64, int), DecodeError>((l.0, body0)),
                limit == body0 + l.0,
                spec_parse_ops(bytes@, body0, limit as int) == (match spec_parse_ops(bytes@, cur as int, limit as int) {
                    Ok(rest) => Ok::<Seq<OpCodeV>, DecodeError>(ops@.map_values(|op: OpCode| op@) + rest),
                    Err(e) => Err::<Seq<OpCodeV>, DecodeError>(e),
                }),
            decreases limit - cur,
        {
            match OpCode::parse(bytes, cur, limit) {
                Ok((op, end)) => {
                    proof {
                        assert(ops@.push(op).map_values(|o: OpCode| o@) =~= ops@.map_values(|o: OpCode| o@) + seq![op@]);
                        assert forall|rest: Seq<OpCodeV>|
                            (ops@.map_values(|o: OpCode| o@) + seq![op@]) + rest
                                =~= ops@.map_values(|o: OpCode| o@) + (seq![op@] + rest) by {}
                    }
                    ops.push(op);
                    cur = end;
                },
                Err(e) => {
                    return Err(e);
                },
            }
        }
        proof {
            assert(ops@.map_values(|op: OpCode| op@) + Seq::<OpCodeV>::empty() =~= ops@.map_values(|op: OpCode| op@));
        }
        Ok((Script(ops), limit))
    }
}

} // verus!
