use transfer_sol_example::TransferError;
use transfer_sol_example::TransferInstruction;

#[test]
fn decode_eight_byte_payload() {
    let payload: Vec<u8> = vec![0x00, 0xCA, 0x9A, 0x3B, 0x00, 0x00, 0x00, 0x00];
    let decoded = TransferInstruction::try_from_slice(&payload).unwrap();
    assert_eq!(decoded.lamports, 1_000_000_000);
}

#[test]
fn decode_one_lamport() {
    let payload: Vec<u8> = vec![1, 0, 0, 0, 0, 0, 0, 0];
    let decoded = TransferInstruction::try_from_slice(&payload).unwrap();
    assert_eq!(decoded.lamports, 1);
}

#[test]
fn decode_max_amount() {
    let payload: Vec<u8> = vec![0xFF; 8];
    let decoded = TransferInstruction::try_from_slice(&payload).unwrap();
    assert_eq!(decoded.lamports, u64::MAX);
}

#[test]
fn short_payload_rejected() {
    let payload: Vec<u8> = vec![0x00, 0xCA, 0x9A, 0x3B, 0x00, 0x00, 0x00];
    let result = TransferInstruction::try_from_slice(&payload);
    assert_eq!(result, Err(TransferError::MalformedInstruction));
}

#[test]
fn long_payload_rejected() {
    let payload: Vec<u8> = vec![0x00, 0xCA, 0x9A, 0x3B, 0x00, 0x00, 0x00, 0x00, 0x00];
    let result = TransferInstruction::try_from_slice(&payload);
    assert_eq!(result, Err(TransferError::MalformedInstruction));
}

#[test]
fn empty_payload_rejected() {
    let result = TransferInstruction::try_from_slice(&[]);
    assert_eq!(result, Err(TransferError::MalformedInstruction));
}

#[test]
fn encode_produces_little_endian_bytes() {
    let request = TransferInstruction { lamports: 1_000_000_000 };
    let encoded = request.try_to_vec();
    assert_eq!(encoded, vec![0x00, 0xCA, 0x9A, 0x3B, 0x00, 0x00, 0x00, 0x00]);
}

#[test]
fn encode_decode_round_trip() {
    for lamports in [0u64, 1, 5000, 1_000_000_000, u64::MAX] {
        let request = TransferInstruction { lamports };
        let encoded = request.try_to_vec();
        assert_eq!(encoded.len(), 8);
        let decoded = TransferInstruction::try_from_slice(&encoded).unwrap();
        assert_eq!(decoded, request);
    }
}
