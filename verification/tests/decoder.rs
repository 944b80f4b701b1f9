use bitcoin_data_structures::errors::DecodeError;
use bitcoin_data_structures::hex::from_hex;
use bitcoin_data_structures::prims::{parse_i32, parse_u32, parse_u64, parse_u8, VarInt};
use bitcoin_data_structures::records::{
    decode_block, parse_sequence, Block, OutPoint, Parse, TxOut,
};
use bitcoin_data_structures::script::{OpCode, Script};

#[test]
fn test_varint_one_byte_boundary() {
    assert_eq!(VarInt::parse(&vec![0xFC], 0), Ok((VarInt(252), 1)));
    assert_eq!(VarInt::parse(&vec![0x00], 0), Ok((VarInt(0), 1)));
}

#[test]
fn test_varint_three_bytes() {
    assert_eq!(VarInt::parse(&vec![0xFD, 0x00, 0x01], 0), Ok((VarInt(256), 3)));
}

#[test]
fn test_varint_five_bytes() {
    assert_eq!(
        VarInt::parse(&vec![0xFE, 0x78, 0x56, 0x34, 0x12], 0),
        Ok((VarInt(0x12345678), 5))
    );
}

#[test]
fn test_varint_nine_bytes() {
    let buf = vec![0xFF; 9];
    assert_eq!(VarInt::parse(&buf, 0), Ok((VarInt(u64::MAX), 9)));
}

#[test]
fn test_varint_truncated() {
    assert_eq!(VarInt::parse(&vec![], 0), Err(DecodeError::TruncatedInput));
    assert_eq!(VarInt::parse(&vec![0xFD, 0x00], 0), Err(DecodeError::TruncatedInput));
    assert_eq!(VarInt::parse(&vec![0xFE, 0x00, 0x00], 0), Err(DecodeError::TruncatedInput));
    assert_eq!(VarInt::parse(&vec![0xFF], 0), Err(DecodeError::TruncatedInput));
}

#[test]
fn test_primitive_values() {
    assert_eq!(parse_u8(&vec![0x7F], 0), Ok((0x7F, 1)));
    assert_eq!(parse_u32(&vec![0x78, 0x56, 0x34, 0x12], 0), Ok((0x12345678, 4)));
    assert_eq!(parse_i32(&vec![0xFF, 0xFF, 0xFF, 0xFF], 0), Ok((-1, 4)));
    assert_eq!(parse_i32(&vec![0x00, 0x00, 0x00, 0x80], 0), Ok((i32::MIN, 4)));
    assert_eq!(parse_i32(&vec![0x01, 0x00, 0x00, 0x00], 0), Ok((1, 4)));
    assert_eq!(
        parse_u64(&vec![0xEF, 0xCD, 0xAB, 0x89, 0x67, 0x45, 0x23, 0x01], 0),
        Ok((0x0123456789ABCDEF, 8))
    );
}

#[test]
fn test_u32_truncated() {
    assert_eq!(parse_u32(&vec![0x01, 0x02], 0), Err(DecodeError::TruncatedInput));
}

#[test]
fn test_sequence_truncated() {
    // Declared count 3 but only one complete element (an empty-script TxOut)
    // remains in the buffer.
    let mut buf = vec![0x03];
    buf.extend_from_slice(&[0x00; 8]);
    buf.push(0x00);
    assert_eq!(
        parse_sequence::<TxOut>(&buf, 0),
        Err(DecodeError::TruncatedInput)
    );
}

#[test]
fn test_sequence_empty() {
    let (items, end) = parse_sequence::<TxOut>(&vec![0x00], 0).unwrap();
    assert_eq!(items, vec![]);
    assert_eq!(end, 1);
}

#[test]
fn test_coinbase_detection() {
    let coinbase = OutPoint { txid: vec![0; 32], vout: 0xFFFFFFFF };
    assert!(coinbase.is_coinbase());

    let mut other_hash = vec![0; 32];
    other_hash[31] = 1;
    let not_coinbase_hash = OutPoint { txid: other_hash, vout: 0xFFFFFFFF };
    assert!(!not_coinbase_hash.is_coinbase());

    let not_coinbase_index = OutPoint { txid: vec![0; 32], vout: 0xFFFFFFFE };
    assert!(!not_coinbase_index.is_coinbase());

    let ordinary = OutPoint { txid: vec![0xAB; 32], vout: 0 };
    assert!(!ordinary.is_coinbase());
}

#[test]
fn test_outpoint_parse() {
    let mut buf = vec![0x42; 32];
    buf.extend_from_slice(&[0x05, 0x00, 0x00, 0x00]);
    let (op, end) = OutPoint::parse(&buf, 0).unwrap();
    assert_eq!(op.txid, vec![0x42; 32]);
    assert_eq!(op.vout, 5);
    assert_eq!(end, 36);

    assert_eq!(OutPoint::parse(&vec![0x00; 35], 0), Err(DecodeError::TruncatedInput));
}

#[test]
fn test_opcode_pushdata1() {
    let buf = vec![0x4C, 0x02, 0xDE, 0xAD];
    assert_eq!(
        OpCode::parse(&buf, 0, 4),
        Ok((OpCode::Push(vec![0xDE, 0xAD]), 4))
    );
}

#[test]
fn test_opcode_return() {
    assert_eq!(OpCode::parse(&vec![0x6A], 0, 1), Ok((OpCode::Return, 1)));
}

#[test]
fn test_opcode_unsupported() {
    assert_eq!(OpCode::parse(&vec![0xFF], 0, 1), Err(DecodeError::UnsupportedOpcode));
    assert_eq!(OpCode::parse(&vec![0x00], 0, 1), Err(DecodeError::UnsupportedOpcode));
}

#[test]
fn test_opcode_direct_push() {
    let buf = vec![0x02, 0xAA, 0xBB, 0xCC];
    assert_eq!(
        OpCode::parse(&buf, 0, 4),
        Ok((OpCode::Push(vec![0xAA, 0xBB]), 3))
    );
}

#[test]
fn test_opcode_bare_variants() {
    assert_eq!(OpCode::parse(&vec![0x76], 0, 1), Ok((OpCode::Dup, 1)));
    assert_eq!(OpCode::parse(&vec![0x87], 0, 1), Ok((OpCode::Equal, 1)));
    assert_eq!(OpCode::parse(&vec![0x88], 0, 1), Ok((OpCode::EqualVerify, 1)));
    assert_eq!(OpCode::parse(&vec![0xA9], 0, 1), Ok((OpCode::Hash160, 1)));
    assert_eq!(OpCode::parse(&vec![0xAC], 0, 1), Ok((OpCode::CheckSig, 1)));
}

#[test]
fn test_script_parse() {
    // Length 3: a one-byte push then CheckSig.
    let buf = vec![0x03, 0x01, 0xAB, 0xAC];
    let (script, end) = Script::parse(&buf, 0).unwrap();
    assert_eq!(script, Script(vec![OpCode::Push(vec![0xAB]), OpCode::CheckSig]));
    assert_eq!(end, 4);
}

#[test]
fn test_script_push_exceeds_region() {
    // The push claims 5 bytes but the script region holds only 2 more.
    let buf = vec![0x03, 0x05, 0xAA, 0xBB];
    assert_eq!(Script::parse(&buf, 0), Err(DecodeError::TruncatedInput));
}

#[test]
fn test_script_length_exceeds_buffer() {
    let buf = vec![0x09, 0xAC];
    assert_eq!(Script::parse(&buf, 0), Err(DecodeError::TruncatedInput));
}

/// A handcrafted single-transaction block in the legacy serialization: an
/// 80-byte header, one coinbase transaction with one output whose script is
/// a one-byte push followed by CheckSig.
fn sample_block_hex() -> String {
    let header = format!(
        "01000000{}{}29ab5f49ffff001d1dac2b7c",
        "00".repeat(32),
        "ab".repeat(32)
    );
    let coinbase_input = format!("{}ffffffff04deadbeefffffffff", "00".repeat(32));
    let output = "00f2052a010000000301abac";
    format!("{header}010100000001{coinbase_input}01{output}00000000")
}

#[test]
fn test_block_end_to_end() {
    let bytes = from_hex(&sample_block_hex()).unwrap();
    let block = decode_block(&bytes).unwrap();

    assert_eq!(block.header.version, 1);
    assert_eq!(block.header.prev_block, vec![0x00; 32]);
    assert_eq!(block.header.merkle_root, vec![0xAB; 32]);
    assert_eq!(block.header.timestamp, 0x495FAB29);
    assert_eq!(block.header.bits, 0x1D00FFFF);
    assert_eq!(block.header.nonce, 0x7C2BAC1D);

    assert_eq!(block.transactions.len(), 1);
    let tx = &block.transactions[0];
    assert_eq!(tx.version, 1);
    assert_eq!(tx.locktime, 0);

    assert_eq!(tx.inputs.len(), 1);
    let input = &tx.inputs[0];
    assert!(input.previous_output.is_coinbase());
    assert_eq!(input.script_sig, Script(vec![]));
    assert_eq!(input.sequence, 0xFFFFFFFF);

    assert_eq!(tx.outputs.len(), 1);
    let output = &tx.outputs[0];
    assert_eq!(output.value, 5_000_000_000);
    assert_eq!(
        output.script_pubkey,
        Script(vec![OpCode::Push(vec![0xAB]), OpCode::CheckSig])
    );
}

#[test]
fn test_block_trailing_bytes() {
    let mut hex = sample_block_hex();
    hex.push_str("00");
    let bytes = from_hex(&hex).unwrap();
    assert_eq!(decode_block(&bytes), Err(DecodeError::TrailingBytes));
}

#[test]
fn test_block_truncated() {
    let bytes = from_hex(&sample_block_hex()).unwrap();
    let cut = bytes[..bytes.len() - 1].to_vec();
    assert_eq!(decode_block(&cut), Err(DecodeError::TruncatedInput));
}

#[test]
fn test_block_parse_leaves_remainder() {
    let mut bytes = from_hex(&sample_block_hex()).unwrap();
    let body_len = bytes.len();
    bytes.push(0x77);
    let (_, end) = Block::parse(&bytes, 0).unwrap();
    assert_eq!(end, body_len);
}

#[test]
fn test_transaction_parse() {
    // One non-coinbase input referencing output 1 of an all-0x11 txid, with
    // an empty signature script; no outputs.
    let mut buf = vec![0x01, 0x00, 0x00, 0x00];
    buf.push(0x01);
    buf.extend_from_slice(&[0x11; 32]);
    buf.extend_from_slice(&[0x01, 0x00, 0x00, 0x00]);
    buf.push(0x00);
    buf.extend_from_slice(&[0xFF, 0xFF, 0xFF, 0xFF]);
    buf.push(0x00);
    buf.extend_from_slice(&[0x02, 0x00, 0x00, 0x00]);
    let (tx, end) = <bitcoin_data_structures::records::Transaction as Parse>::parse(&buf, 0).unwrap();
    assert_eq!(end, buf.len());
    assert_eq!(tx.version, 1);
    assert_eq!(tx.inputs.len(), 1);
    assert!(!tx.inputs[0].previous_output.is_coinbase());
    assert_eq!(tx.inputs[0].previous_output.vout, 1);
    assert_eq!(tx.inputs[0].script_sig, Script(vec![]));
    assert_eq!(tx.outputs.len(), 0);
    assert_eq!(tx.locktime, 2);
}
