use vstd::prelude::*;

verus! {

/// Why a decode failed.
///
/// Every decoder reports the first failure it meets and the enclosing
/// decoders pass it up unchanged; no partial record is ever returned.
#[derive(Clone, Copy, Debug, PartialEq, Eq, Structural)]
pub enum DecodeError {
    /// The hex text has odd length or holds a character that is no hex digit.
    MalformedHex,
    /// The buffer ends before a field or record is complete.
    TruncatedInput,
    /// A script byte falls outside the handled opcode table.
    UnsupportedOpcode,
    /// Bytes remain after a complete block was decoded from the full buffer.
    TrailingBytes,
}

} // verus!
