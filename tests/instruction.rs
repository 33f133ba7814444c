use token_transfer::error::Failure;
use token_transfer::instruction::TokenInstruction;
use token_transfer::{AccountMeta, Pubkey, ID, SYSTEM_PROGRAM_ID, TOKEN_PROGRAM_ID};

const TRANSFER_LAMPORTS: TokenInstruction = TokenInstruction::TransferLamports { amount: 1_234_567 };
const BINARY_TRANSFER_LAMPORTS: [u8; 9] = [0, 135, 214, 18, 0, 0, 0, 0, 0];

const TRANSFER_SLP_TOKEN: TokenInstruction = TokenInstruction::TransferSplToken { amount: 1_111_111 };
const BINARY_TRANSFER_SLP_TOKEN: [u8; 9] = [1, 71, 244, 16, 0, 0, 0, 0, 0];

const APPROVE_SLP_TOKEN: TokenInstruction = TokenInstruction::ApproveSplToken { amount: 2_222_222 };
const BINARY_APPROVE_SLP_TOKEN: [u8; 9] = [2, 142, 232, 33, 0, 0, 0, 0, 0];

fn test_serialization(instr: &TokenInstruction, binary_instr: &[u8]) {
    let serialized_instruction = instr.pack();

    assert_eq!(serialized_instruction, binary_instr);
}

fn test_deserialization(instr: &TokenInstruction, binary_instr: &[u8]) {
    let deserialized_instr = TokenInstruction::unpack(binary_instr).unwrap();

    assert_eq!(&deserialized_instr, instr);
}

#[test]
fn when_serialization_transfer_lamports_expect_ok() {
    test_serialization(&TRANSFER_LAMPORTS, &BINARY_TRANSFER_LAMPORTS);
}

#[test]
fn when_deserialization_transfer_lamports_expect_ok() {
    test_deserialization(&TRANSFER_LAMPORTS, &BINARY_TRANSFER_LAMPORTS);
}

#[test]
fn when_serialization_transfer_spl_token_expect_ok() {
    test_serialization(&TRANSFER_SLP_TOKEN, &BINARY_TRANSFER_SLP_TOKEN)
}

#[test]
fn when_deserialization_transfer_spl_token_expect_ok() {
    test_deserialization(&TRANSFER_SLP_TOKEN, &BINARY_TRANSFER_SLP_TOKEN)
}

#[test]
fn when_serialization_approve_spl_token_expect_ok() {
    test_serialization(&APPROVE_SLP_TOKEN, &BINARY_APPROVE_SLP_TOKEN)
}

#[test]
fn when_deserialization_approve_spl_token_expect_ok() {
    test_deserialization(&APPROVE_SLP_TOKEN, &BINARY_APPROVE_SLP_TOKEN)
}

#[test]
fn round_trip_edge_amounts() {
    for amount in [0u64, 1, 255, 256, 1_234_567, u64::MAX - 1, u64::MAX] {
        for op in [
            TokenInstruction::TransferLamports { amount },
            TokenInstruction::TransferSplToken { amount },
            TokenInstruction::ApproveSplToken { amount },
        ] {
            let bytes = op.pack();
            assert_eq!(bytes.len(), 9);
            assert_eq!(TokenInstruction::unpack(&bytes), Ok(op));
            assert_eq!(op.amount(), amount);
        }
    }
}

#[test]
fn max_amount_wire_form() {
    let op = TokenInstruction::ApproveSplToken { amount: u64::MAX };
    assert_eq!(op.pack(), vec![2, 255, 255, 255, 255, 255, 255, 255, 255]);
    let op = TokenInstruction::TransferSplToken { amount: 0x0102030405060708 };
    assert_eq!(op.pack(), vec![1, 8, 7, 6, 5, 4, 3, 2, 1]);
}

#[test]
fn decode_rejects_wrong_length() {
    assert_eq!(TokenInstruction::unpack(&[]), Err(Failure::MalformedInstruction));
    assert_eq!(TokenInstruction::unpack(&[0]), Err(Failure::MalformedInstruction));
    assert_eq!(
        TokenInstruction::unpack(&[0, 135, 214, 18, 0, 0, 0, 0]),
        Err(Failure::MalformedInstruction)
    );
    assert_eq!(
        TokenInstruction::unpack(&[0, 135, 214, 18, 0, 0, 0, 0, 0, 0]),
        Err(Failure::MalformedInstruction)
    );
}

#[test]
fn decode_rejects_unknown_tag() {
    for tag in [3u8, 4, 128, 255] {
        assert_eq!(
            TokenInstruction::unpack(&[tag, 1, 0, 0, 0, 0, 0, 0, 0]),
            Err(Failure::MalformedInstruction)
        );
    }
}

#[test]
fn transfer_lamports_request() {
    let from = Pubkey([1; 32]);
    let to = Pubkey([2; 32]);
    let instr = TokenInstruction::transfer_lamports(from, to, 1_111_111);
    assert_eq!(instr.program_id, Pubkey(ID));
    assert_eq!(instr.data, vec![0, 71, 244, 16, 0, 0, 0, 0, 0]);
    assert_eq!(
        instr.accounts,
        vec![
            AccountMeta { pubkey: from, is_signer: true, is_writable: true },
            AccountMeta { pubkey: to, is_signer: false, is_writable: true },
            AccountMeta { pubkey: Pubkey(SYSTEM_PROGRAM_ID), is_signer: false, is_writable: false },
        ]
    );
}

#[test]
fn transfer_spl_token_request() {
    let from = Pubkey([1; 32]);
    let src = Pubkey([2; 32]);
    let dst = Pubkey([3; 32]);
    let instr = TokenInstruction::transfer_spl_token(from, src, dst, 1_111_111);
    assert_eq!(instr.program_id, Pubkey(ID));
    assert_eq!(instr.data, BINARY_TRANSFER_SLP_TOKEN.to_vec());
    assert_eq!(
        instr.accounts,
        vec![
            AccountMeta { pubkey: from, is_signer: true, is_writable: false },
            AccountMeta { pubkey: src, is_signer: false, is_writable: true },
            AccountMeta { pubkey: dst, is_signer: false, is_writable: true },
            AccountMeta { pubkey: Pubkey(TOKEN_PROGRAM_ID), is_signer: false, is_writable: false },
        ]
    );
}

#[test]
fn approve_spl_token_request() {
    let from = Pubkey([1; 32]);
    let src = Pubkey([2; 32]);
    let dst = Pubkey([3; 32]);
    let instr = TokenInstruction::approve_spl_token(from, src, dst, 2_222_222);
    assert_eq!(instr.program_id, Pubkey(ID));
    assert_eq!(instr.data, BINARY_APPROVE_SLP_TOKEN.to_vec());
    assert_eq!(
        instr.accounts,
        vec![
            AccountMeta { pubkey: from, is_signer: true, is_writable: false },
            AccountMeta { pubkey: src, is_signer: false, is_writable: true },
            AccountMeta { pubkey: dst, is_signer: false, is_writable: true },
            AccountMeta { pubkey: Pubkey(TOKEN_PROGRAM_ID), is_signer: false, is_writable: false },
        ]
    );
}

#[test]
fn account_meta_constructors() {
    let k = Pubkey([9; 32]);
    assert_eq!(AccountMeta::new(k, true), AccountMeta { pubkey: k, is_signer: true, is_writable: true });
    assert_eq!(
        AccountMeta::new_readonly(k, false),
        AccountMeta { pubkey: k, is_signer: false, is_writable: false }
    );
    assert_eq!(token_transfer::id(), Pubkey(ID));
}
