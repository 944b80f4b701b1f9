//! Structured record decoders: OutPoint, TxIn, TxOut, Transaction,
//! BlockHeader and Block, each composing sub-decoders in fixed field order,
//! plus the generic count-prefixed sequence decoder.
//!
//! Decoding is a pure left-to-right fold over the byte buffer: every decoder
//! returns the value and the position just past it, and a composite decoder
//! threads that position through its fields. The decoders target the single
//! legacy (pre-segwit) serialization; a segwit transaction (marker byte after
//! the version) is not recognized.

use vstd::prelude::*;

use crate::errors::DecodeError;
use crate::prims::{le32, le32_signed, le64, parse_hash32, parse_i32, parse_u32, parse_u64,
    spec_parse_varint, VarInt};
use crate::script::{spec_parse_script, OpCodeV, Script};

verus! {

/// The views of a sequence of values, in order.
pub open spec fn views_of<T: View>(s: Seq<T>) -> Seq<T::V> {
    s.map_values(|t: T| t@)
}

/// A decoder for one record type: an executable parse function proved
/// against a mathematical model of the same wire format.
pub trait Parse: View + Sized {
    /// What decoding one record at `pos` yields: its model and the position
    /// just past it, or the first failure.
    spec fn spec_parse(s: Seq<u8>, pos: int) -> Result<(Self::V, int), DecodeError>;

    /// Decodes one record at `pos`.
    fn parse(bytes: &Vec<u8>, pos: usize) -> (r: Result<(Self, usize), DecodeError>)
        requires
            pos <= bytes@.len(),
        ensures
            match r {
                Ok((v, end)) => Self::spec_parse(bytes@, pos as int)
                    == Ok::<(Self::V, int), DecodeError>((v@, end as int)) && pos <= end <= bytes@.len(),
                Err(e) => Self::spec_parse(bytes@, pos as int)
                    == Err::<(Self::V, int), DecodeError>(e),
            };
}

/// What decoding exactly `n` consecutive records at `pos` yields: their
/// models in order, or the first record's failure.
pub open spec fn spec_parse_items<T: Parse>(s: Seq<u8>, pos: int, n: nat) -> Result<(Seq<T::V>, int), DecodeError>
    decreases n,
{
    if n == 0 {
        Ok((Seq::empty(), pos))
    } else {
        match T::spec_parse(s, pos) {
            Ok((v, end)) => match spec_parse_items::<T>(s, end, (n - 1) as nat) {
                Ok((rest, end2)) => Ok((seq![v] + rest, end2)),
                Err(e) => Err(e),
            },
            Err(e) => Err(e),
        }
    }
}

/// What decoding a count-prefixed sequence at `pos` yields: a count N as a
/// variable-length integer, then exactly N records. N = 0 is valid and
/// yields the empty sequence.
pub open spec fn spec_parse_sequence<T: Parse>(s: Seq<u8>, pos: int) -> Result<(Seq<T::V>, int), DecodeError> {
    match spec_parse_varint(s, pos) {
        Ok((n, body)) => spec_parse_items::<T>(s, body, n as nat),
        Err(e) => Err(e),
    }
}

/// Decodes a count-prefixed sequence: a count N, then exactly N records.
///
/// Propagates the first record's failure; no partially decoded sequence is
/// returned.
pub fn parse_sequence<T: Parse>(bytes: &Vec<u8>, pos: usize) -> (r: Result<(Vec<T>, usize), DecodeError>)
    requires
        pos <= bytes@.len(),
    ensures
        match r {
            Ok((v, end)) => spec_parse_sequence::<T>(bytes@, pos as int)
                == Ok::<(Seq<T::V>, int), DecodeError>((views_of(v@), end as int)) && pos <= end <= bytes@.len(),
            Err(e) => spec_parse_sequence::<T>(bytes@, pos as int)
                == Err::<(Seq<T::V>, int), DecodeError>(e),
        },
{
    let (n, body) = match VarInt::parse(bytes, pos) {
        Ok(x) => x,
        Err(e) => {
            return Err(e);
        },
    };
    let ghost body0 = body as int;
    let mut out: Vec<T> = Vec::new();
    let mut cur = body;
    let mut i: u64 = 0;
    while i < n.0
        invariant
            i <= n.0,
            body0 <= cur <= bytes@.len(),
            out@.len() == i,
            spec_parse_varint(bytes@, pos as int) == Ok::<(u64, int), DecodeError>((n.0, body0)),
            spec_parse_items::<T>(bytes@, body0, n.0 as nat) == (match spec_parse_items::<T>(bytes@, cur as int, (n.0 - i) as nat) {
                Ok((rest, end)) => Ok::<(Seq<T::V>, int), DecodeError>((views_of(out@) + rest, end)),
                Err(e) => Err::<(Seq<T::V>, int), DecodeError>(e),
            }),
        decreases n.0 - i,
    {
        match T::parse(bytes, cur) {
            Ok((v, end)) => {
                proof {
                    assert(views_of(out@.push(v)) =~= views_of(out@) + seq![v@]);
                    assert forall|rest: Seq<T::V>|
                        (views_of(out@) + seq![v@]) + rest =~= views_of(out@) + (seq![v@] + rest) by {}
                }
                out.push(v);
                cur = end;
                i = i + 1;
            },
            Err(e) => {
                return Err(e);
            },
        }
    }
    proof {
        assert(views_of(out@) + Seq::<T::V>::empty() =~= views_of(out@));
    }
    Ok((out, cur))
}

/// A reference to one output of a prior transaction: its id and the output
/// index.
#[derive(Debug, PartialEq, Eq)]
pub struct OutPoint {
    /// The referenced transaction id; always 32 bytes once decoded.
    pub txid: Vec<u8>,
    /// The index of the referenced output.
    pub vout: u32,
}

/// The mathematical model of an `OutPoint`.
pub struct OutPointV {
    pub txid: Seq<u8>,
    pub vout: u32,
}

impl View for OutPoint {
    type V = OutPointV;

    open spec fn view(&self) -> OutPointV {
        OutPointV { txid: self.txid@, vout: self.vout }
    }
}

/// The coinbase marker: an outpoint referencing no real prior output. Holds
/// exactly when the id is 32 all-zero bytes and the index is `0xFFFFFFFF`.
pub open spec fn spec_is_coinbase(o: OutPointV) -> bool {
    o.txid.len() == 32 && (forall|i: int| 0 <= i < 32 ==> o.txid[i] == 0) && o.vout == 0xFFFFFFFFu32
}

/// What decoding an outpoint at `pos` yields: a 32-byte id then an index.
pub open spec fn spec_parse_outpoint(s: Seq<u8>, pos: int) -> Result<(OutPointV, int), DecodeError> {
    if pos + 36 <= s.len() {
        Ok((OutPointV { txid: s.subrange(pos, pos + 32), vout: le32(s, pos + 32) as u32 }, pos + 36))
    } else {
        Err(DecodeError::TruncatedInput)
    }
}

impl OutPoint {
    /// Whether this outpoint is the coinbase marker: 32-byte all-zero id and
    /// index `0xFFFFFFFF`. Any other id or index is no coinbase marker.
    pub fn is_coinbase(&self) -> (r: bool)
        ensures
            r == spec_is_coinbase(self@),
    {
        if self.vout != 0xFFFFFFFF {
            return false;
        }
        if self.txid.len() != 32 {
            return false;
        }
        let mut i: usize = 0;
        while i < 32
            invariant
                i <= 32,
                self.txid@.len() == 32,
                forall|j: int| 0 <= j < i ==> self.txid@[j] == 0,
            decreases 32 - i,
        {
            if self.txid[i] != 0 {
                return false;
            }
            i = i + 1;
        }
        true
    }

    /// Decodes an outpoint: the referenced id, then the output index.
    pub fn parse(bytes: &Vec<u8>, pos: usize) -> (r: Result<(OutPoint, usize), DecodeError>)
        requires
            pos <= bytes@.len(),
        ensures
            match r {
                Ok((v, end)) => spec_parse_outpoint(bytes@, pos as int)
                    == Ok::<(OutPointV, int), DecodeError>((v@, end as int)) && pos <= end <= bytes@.len(),
                Err(e) => spec_parse_outpoint(bytes@, pos as int)
                    == Err::<(OutPointV, int), DecodeError>(e),
            },
    {
        let (txid, p1) = match parse_hash32(bytes, pos) {
            Ok(x) => x,
            Err(e) => {
                return Err(e);
            },
        };
        let (vout, p2) = match parse_u32(bytes, p1) {
            Ok(x) => x,
            Err(e) => {
                return Err(e);
            },
        };
        Ok((OutPoint { txid, vout }, p2))
    }
}

/// The six fixed-width fields heading a block; exactly 80 bytes on the wire.
#[derive(Debug, PartialEq, Eq)]
pub struct BlockHeader {
    pub version: i32,
    /// Hash of the previous block; always 32 bytes once decoded.
    pub prev_block: Vec<u8>,
    /// Merkle root over the block's transactions; always 32 bytes once decoded.
    pub merkle_root: Vec<u8>,
    pub timestamp: u32,
    pub bits: u32,
    pub nonce: u32,
}

/// The mathematical model of a `BlockHeader`.
pub struct BlockHeaderV {
    pub version: i32,
    pub prev_block: Seq<u8>,
    pub merkle_root: Seq<u8>,
    pub timestamp: u32,
    pub bits: u32,
    pub nonce: u32,
}

impl View for BlockHeader {
    type V = BlockHeaderV;

    open spec fn view(&self) -> BlockHeaderV {
        BlockHeaderV {
            version: self.version,
            prev_block: self.prev_block@,
            merkle_root: self.merkle_root@,
            timestamp: self.timestamp,
            bits: self.bits,
            nonce: self.nonce,
        }
    }
}

/// What decoding a block header at `pos` yields: the six fixed-width fields
/// in wire order, 80 bytes in all.
pub open spec fn spec_parse_header(s: Seq<u8>, pos: int) -> Result<(BlockHeaderV, int), DecodeError> {
    if pos + 80 <= s.len() {
        Ok((BlockHeaderV {
            version: le32_signed(s, pos) as i32,
            prev_block: s.subrange(pos + 4, pos + 36),
            merkle_root: s.subrange(pos + 36, pos + 68),
            timestamp: le32(s, pos + 68) as u32,
            bits: le32(s, pos + 72) as u32,
            nonce: le32(s, pos + 76) as u32,
        }, pos + 80))
    } else {
        Err(DecodeError::TruncatedInput)
    }
}

impl BlockHeader {
    /// Decodes a block header: version, previous-block hash, merkle root,
    /// timestamp, difficulty bits, nonce.
    pub fn parse(bytes: &Vec<u8>, pos: usize) -> (r: Result<(BlockHeader, usize), DecodeError>)
        requires
            pos <= bytes@.len(),
        ensures
            match r {
                Ok((v, end)) => spec_parse_header(bytes@, pos as int)
                    == Ok::<(BlockHeaderV, int), DecodeError>((v@, end as int)) && pos <= end <= bytes@.len(),
                Err(e) => spec_parse_header(bytes@, pos as int)
                    == Err::<(BlockHeaderV, int), DecodeError>(e),
            },
    {
        if bytes.len() - pos < 80 {
            return Err(DecodeError::TruncatedInput);
        }
        let (version, p1) = match parse_i32(bytes, pos) {
            Ok(x) => x,
            Err(e) => {
                return Err(e);
            },
        };
        let (prev_block, p2) = match parse_hash32(bytes, p1) {
            Ok(x) => x,
            Err(e) => {
                return Err(e);
            },
        };
        let (merkle_root, p3) = match parse_hash32(bytes, p2) {
            Ok(x) => x,
            Err(e) => {
                return Err(e);
            },
        };
        let (timestamp, p4) = match parse_u32(bytes, p3) {
            Ok(x) => x,
            Err(e) => {
                return Err(e);
            },
        };
        let (bits, p5) = match parse_u32(bytes, p4) {
            Ok(x) => x,
            Err(e) => {
                return Err(e);
            },
        };
        let (nonce, p6) = match parse_u32(bytes, p5) {
            Ok(x) => x,
            Err(e) => {
                return Err(e);
            },
        };
        Ok((BlockHeader { version, prev_block, merkle_root, timestamp, bits, nonce }, p6))
    }
}

/// One transaction input: the referenced outpoint, its signature script and
/// the sequence number.
#[derive(Debug, PartialEq, Eq)]
pub struct TxIn {
    pub previous_output: OutPoint,
    /// The signature script; left empty for a coinbase input, whose
    /// length-prefixed data bytes are opaque and skipped.
    pub script_sig: Script,
    pub sequence: u32,
}

/// The mathematical model of a `TxIn`.
pub struct TxInV {
    pub previous_output: OutPointV,
    pub script_sig: Seq<OpCodeV>,
    pub sequence: u32,
}

impl View for TxIn {
    type V = TxInV;

    open spec fn view(&self) -> TxInV {
        TxInV {
            previous_output: self.previous_output@,
            script_sig: self.script_sig@,
            sequence: self.sequence,
        }
    }
}

/// What decoding a transaction input at `pos` yields.
///
/// The outpoint comes first. When it is the coinbase marker the script field
/// holds opaque miner data, not an opcode stream: its length prefix is
/// decoded and exactly that many bytes are discarded, leaving the script
/// empty. Otherwise a normal script is decoded. The sequence number follows.
pub open spec fn spec_parse_txin(s: Seq<u8>, pos: int) -> Result<(TxInV, int), DecodeError> {
    match spec_parse_outpoint(s, pos) {
        Ok((prev, p1)) => {
            let scr = if spec_is_coinbase(prev) {
                match spec_parse_varint(s, p1) {
                    Ok((l, p2)) => if p2 + l <= s.len() {
                        Ok((Seq::<OpCodeV>::empty(), p2 + l))
                    } else {
                        Err(DecodeError::TruncatedInput)
                    },
                    Err(e) => Err(e),
                }
            } else {
                spec_parse_script(s, p1)
            };
            match scr {
                Ok((script_sig, p3)) => if p3 + 4 <= s.len() {
                    Ok((TxInV { previous_output: prev, script_sig, sequence: le32(s, p3) as u32 }, p3 + 4))
                } else {
                    Err(DecodeError::TruncatedInput)
                },
                Err(e) => Err(e),
            }
        },
        Err(e) => Err(e),
    }
}

impl Parse for TxIn {
    open spec fn spec_parse(s: Seq<u8>, pos: int) -> Result<(TxInV, int), DecodeError> {
        spec_parse_txin(s, pos)
    }

    fn parse(bytes: &Vec<u8>, pos: usize) -> (r: Result<(TxIn, usize), DecodeError>) {
        let (previous_output, p1) = match OutPoint::parse(bytes, pos) {
            Ok(x) => x,
            Err(e) => {
                return Err(e);
            },
        };
        let (script_sig, p3) = if previous_output.is_coinbase() {
            let (l, p2) = match VarInt::parse(bytes, p1) {
                Ok(x) => x,
                Err(e) => {
                    return Err(e);
                },
            };
            if l.0 > (bytes.len() - p2) as u64 {
                return Err(DecodeError::TruncatedInput);
            }
            let skipped = p2 + (l.0 as usize);
            let empty_script = Script(Vec::new());
            proof {
                assert(empty_script@ =~= Seq::<OpCodeV>::empty());
            }
            (empty_script, skipped)
        } else {
            match Script::parse(bytes, p1) {
                Ok(x) => x,
                Err(e) => {
                    return Err(e);
                },
            }
        };
        let (sequence, p4) = match parse_u32(bytes, p3) {
            Ok(x) => x,
            Err(e) => {
                return Err(e);
            },
        };
        Ok((TxIn { previous_output, script_sig, sequence }, p4))
    }
}

/// One transaction output: its value in satoshis and the pubkey script.
#[derive(Debug, PartialEq, Eq)]
pub struct TxOut {
    pub value: u64,
    pub script_pubkey: Script,
}

/// The mathematical model of a `TxOut`.
pub struct TxOutV {
    pub value: u64,
    pub script_pubkey: Seq<OpCodeV>,
}

impl View for TxOut {
    type V = TxOutV;

    open spec fn view(&self) -> TxOutV {
        TxOutV { value: self.value, script_pubkey: self.script_pubkey@ }
    }
}

/// What decoding a transaction output at `pos` yields: the value, then the
/// pubkey script.
pub open spec fn spec_parse_txout(s: Seq<u8>, pos: int) -> Result<(TxOutV, int), DecodeError> {
    if pos + 8 <= s.len() {
        match spec_parse_script(s, pos + 8) {
            Ok((script_pubkey, p2)) => Ok((TxOutV { value: le64(s, pos) as u64, script_pubkey }, p2)),
            Err(e) => Err(e),
        }
    } else {
        Err(DecodeError::TruncatedInput)
    }
}

impl Parse for TxOut {
    open spec fn spec_parse(s: Seq<u8>, pos: int) -> Result<(TxOutV, int), DecodeError> {
        spec_parse_txout(s, pos)
    }

    fn parse(bytes: &Vec<u8>, pos: usize) -> (r: Result<(TxOut, usize), DecodeError>) {
        let (value, p1) = match parse_u64(bytes, pos) {
            Ok(x) => x,
            Err(e) => {
                return Err(e);
            },
        };
        let (script_pubkey, p2) = match Script::parse(bytes, p1) {
            Ok(x) => x,
            Err(e) => {
                return Err(e);
            },
        };
        Ok((TxOut { value, script_pubkey }, p2))
    }
}

/// One transaction: version, the ordered inputs and outputs, and locktime.
#[derive(Debug, PartialEq, Eq)]
pub struct Transaction {
    pub version: u32,
    pub inputs: Vec<TxIn>,
    pub outputs: Vec<TxOut>,
    pub locktime: u32,
}

/// The mathematical model of a `Transaction`.
pub struct TransactionV {
    pub version: u32,
    pub inputs: Seq<TxInV>,
    pub outputs: Seq<TxOutV>,
    pub locktime: u32,
}

impl View for Transaction {
    type V = TransactionV;

    open spec fn view(&self) -> TransactionV {
        TransactionV {
            version: self.version,
            inputs: views_of(self.inputs@),
            outputs: views_of(self.outputs@),
            locktime: self.locktime,
        }
    }
}

/// What decoding a transaction at `pos` yields: version, a count-prefixed
/// sequence of inputs, one of outputs, then locktime.
pub open spec fn spec_parse_tx(s: Seq<u8>, pos: int) -> Result<(TransactionV, int), DecodeError> {
    if pos + 4 <= s.len() {
        match spec_parse_sequence::<TxIn>(s, pos + 4) {
            Ok((inputs, p2)) => match spec_parse_sequence::<TxOut>(s, p2) {
                Ok((outputs, p3)) => if p3 + 4 <= s.len() {
                    Ok((TransactionV { version: le32(s, pos) as u32, inputs, outputs, locktime: le32(s, p3) as u32 }, p3 + 4))
                } else {
                    Err(DecodeError::TruncatedInput)
                },
                Err(e) => Err(e),
            },
            Err(e) => Err(e),
        }
    } else {
        Err(DecodeError::TruncatedInput)
    }
}

impl Parse for Transaction {
    open spec fn spec_parse(s: Seq<u8>, pos: int) -> Result<(TransactionV, int), DecodeError> {
        spec_parse_tx(s, pos)
    }

    fn parse(bytes: &Vec<u8>, pos: usize) -> (r: Result<(Transaction, usize), DecodeError>) {
        let (version, p1) = match parse_u32(bytes, pos) {
            Ok(x) => x,
            Err(e) => {
                return Err(e);
            },
        };
        let (inputs, p2) = match parse_sequence::<TxIn>(bytes, p1) {
            Ok(x) => x,
            Err(e) => {
                return Err(e);
            },
        };
        let (outputs, p3) = match parse_sequence::<TxOut>(bytes, p2) {
            Ok(x) => x,
            Err(e) => {
                return Err(e);
            },
        };
        let (locktime, p4) = match parse_u32(bytes, p3) {
            Ok(x) => x,
            Err(e) => {
                return Err(e);
            },
        };
        Ok((Transaction { version, inputs, outputs, locktime }, p4))
    }
}

/// A whole block: its header and the ordered transactions, the first of
/// which is conventionally the coinbase transaction.
#[derive(Debug, PartialEq, Eq)]
pub struct Block {
    pub header: BlockHeader,
    pub transactions: Vec<Transaction>,
}

/// The mathematical model of a `Block`.
pub struct BlockV {
    pub header: BlockHeaderV,
    pub transactions: Seq<TransactionV>,
}

impl View for Block {
    type V = BlockV;

    open spec fn view(&self) -> BlockV {
        BlockV { header: self.header@, transactions: views_of(self.transactions@) }
    }
}

/// What decoding a block at `pos` yields: the header, then a count-prefixed
/// sequence of transactions.
pub open spec fn spec_parse_block(s: Seq<u8>, pos: int) -> Result<(BlockV, int), DecodeError> {
    match spec_parse_header(s, pos) {
        Ok((header, p1)) => match spec_parse_sequence::<Transaction>(s, p1) {
            Ok((transactions, p2)) => Ok((BlockV { header, transactions }, p2)),
            Err(e) => Err(e),
        },
        Err(e) => Err(e),
    }
}

impl Block {
    /// Decodes a block: the header, then the transactions.
    pub fn parse(bytes: &Vec<u8>, pos: usize) -> (r: Result<(Block, usize), DecodeError>)
        requires
            pos <= bytes@.len(),
        ensures
            match r {
                Ok((v, end)) => spec_parse_block(bytes@, pos as int)
                    == Ok::<(BlockV, int), DecodeError>((v@, end as int)) && pos <= end <= bytes@.len(),
                Err(e) => spec_parse_block(bytes@, pos as int)
                    == Err::<(BlockV, int), DecodeError>(e),
            },
    {
        let (header, p1) = match BlockHeader::parse(bytes, pos) {
            Ok(x) => x,
            Err(e) => {
                return Err(e);
            },
        };
        let (transactions, p2) = match parse_sequence::<Transaction>(bytes, p1) {
            Ok(x) => x,
            Err(e) => {
                return Err(e);
            },
        };
        Ok((Block { header, transactions }, p2))
    }
}

/// Decodes one block from the whole buffer.
///
/// Succeeds exactly when a block decodes from position 0 and consumes the
/// buffer in full; a valid block followed by anything at all is
/// `TrailingBytes`, and a decode failure is passed up unchanged.
pub fn decode_block(bytes: &Vec<u8>) -> (r: Result<Block, DecodeError>)
    ensures
        match r {
            Ok(b) => spec_parse_block(bytes@, 0) == Ok::<(BlockV, int), DecodeError>((b@, bytes@.len() as int)),
            Err(e) => match spec_parse_block(bytes@, 0) {
                Ok((b, end)) => end < bytes@.len() && e == DecodeError::TrailingBytes,
                Err(e2) => e == e2,
            },
        },
{
    let (block, end) = match Block::parse(bytes, 0) {
        Ok(x) => x,
        Err(e) => {
            return Err(e);
        },
    };
    if end != bytes.len() {
        return Err(DecodeError::TrailingBytes);
    }
    Ok(block)
}

} // verus!
