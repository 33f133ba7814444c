use vstd::prelude::*;
use vstd::assert_seqs_equal;
use crate::error::Failure;
use crate::{id, AccountMeta, Instruction, Pubkey, ID, SYSTEM_PROGRAM_ID, TOKEN_PROGRAM_ID};

verus! {

/// The operations this handler accepts, each carrying an amount.
#[derive(Clone, Copy, Debug, PartialEq, Eq, Structural)]
pub enum TokenInstruction {
    /// Transfer of the native unit.
    /// 0. [signer, writable] source
    /// 1. [writable] destination
    /// 2. [] system program, named in requests but not read by the handler
    TransferLamports { amount: u64 },
    /// Token transfer.
    /// 0. [signer] authority
    /// 1. [writable] source token account
    /// 2. [writable] destination token account
    /// 3. [] token program
    TransferSplToken { amount: u64 },
    /// Token approval.
    /// 0. [signer] authority
    /// 1. [writable] source token account
    /// 2. [writable] delegate token account
    /// 3. [] token program
    ApproveSplToken { amount: u64 },
}

/// Number of bytes of every encoded instruction.
pub const INSTRUCTION_LEN: usize = 9;

/// The tag byte of an operation on the wire.
pub open spec fn tag_of(op: TokenInstruction) -> u8 {
    match op {
        TokenInstruction::TransferLamports { .. } => 0,
        TokenInstruction::TransferSplToken { .. } => 1,
        TokenInstruction::ApproveSplToken { .. } => 2,
    }
}

/// The amount an operation carries.
pub open spec fn amount_of(op: TokenInstruction) -> u64 {
    match op {
        TokenInstruction::TransferLamports { amount } => amount,
        TokenInstruction::TransferSplToken { amount } => amount,
        TokenInstruction::ApproveSplToken { amount } => amount,
    }
}

/// The operation with a given tag and amount, if the tag is known.
pub open spec fn op_of(tag: u8, amount: u64) -> Option<TokenInstruction> {
    if tag == 0 {
        Some(TokenInstruction::TransferLamports { amount })
    } else if tag == 1 {
        Some(TokenInstruction::TransferSplToken { amount })
    } else if tag == 2 {
        Some(TokenInstruction::ApproveSplToken { amount })
    } else {
        None
    }
}

/// Little-endian bytes of a 64-bit value.
pub open spec fn le_bytes(a: u64) -> Seq<u8> {
    seq![
        a as u8,
        (a >> 8u64) as u8,
        (a >> 16u64) as u8,
        (a >> 24u64) as u8,
        (a >> 32u64) as u8,
        (a >> 40u64) as u8,
        (a >> 48u64) as u8,
        (a >> 56u64) as u8,
    ]
}

/// The 64-bit value of eight little-endian bytes.
pub open spec fn le_value(b0: u8, b1: u8, b2: u8, b3: u8, b4: u8, b5: u8, b6: u8, b7: u8) -> u64 {
    (b0 as u64) | ((b1 as u64) << 8u64) | ((b2 as u64) << 16u64) | ((b3 as u64) << 24u64)
        | ((b4 as u64) << 32u64) | ((b5 as u64) << 40u64) | ((b6 as u64) << 48u64)
        | ((b7 as u64) << 56u64)
}

/// Wire form of an operation: its tag, then its amount in little-endian order.
pub open spec fn encode_spec(op: TokenInstruction) -> Seq<u8> {
    seq![tag_of(op)] + le_bytes(amount_of(op))
}

/// The operation a buffer holds, if it holds exactly one.
pub open spec fn decode_spec(b: Seq<u8>) -> Option<TokenInstruction> {
    if b.len() != 9 {
        None
    } else {
        op_of(b[0], le_value(b[1], b[2], b[3], b[4], b[5], b[6], b[7], b[8]))
    }
}

proof fn lemma_le_value_of_bytes(a: u64)
    ensures
        le_value(
            a as u8,
            (a >> 8u64) as u8,
            (a >> 16u64) as u8,
            (a >> 24u64) as u8,
            (a >> 32u64) as u8,
            (a >> 40u64) as u8,
            (a >> 48u64) as u8,
            (a >> 56u64) as u8,
        ) == a,
{
    assert((a as u8 as u64) | (((a >> 8u64) as u8 as u64) << 8u64) | (((a >> 16u64) as u8 as u64)
        << 16u64) | (((a >> 24u64) as u8 as u64) << 24u64) | (((a >> 32u64) as u8 as u64)
        << 32u64) | (((a >> 40u64) as u8 as u64) << 40u64) | (((a >> 48u64) as u8 as u64)
        << 48u64) | (((a >> 56u64) as u8 as u64) << 56u64) == a) by (bit_vector);
}

proof fn lemma_bytes_of_le_value(b0: u8, b1: u8, b2: u8, b3: u8, b4: u8, b5: u8, b6: u8, b7: u8)
    ensures
        le_bytes(le_value(b0, b1, b2, b3, b4, b5, b6, b7)) == seq![b0, b1, b2, b3, b4, b5, b6, b7],
{
    let a = le_value(b0, b1, b2, b3, b4, b5, b6, b7);
    assert(a == (b0 as u64) | ((b1 as u64) << 8u64) | ((b2 as u64) << 16u64) | ((b3 as u64)
        << 24u64) | ((b4 as u64) << 32u64) | ((b5 as u64) << 40u64) | ((b6 as u64) << 48u64)
        | ((b7 as u64) << 56u64));
    assert(a as u8 == b0 && (a >> 8u64) as u8 == b1 && (a >> 16u64) as u8 == b2 && (a >> 24u64) as u8
        == b3 && (a >> 32u64) as u8 == b4 && (a >> 40u64) as u8 == b5 && (a >> 48u64) as u8 == b6
        && (a >> 56u64) as u8 == b7) by (bit_vector)
        requires
            a == (b0 as u64) | ((b1 as u64) << 8u64) | ((b2 as u64) << 16u64) | ((b3 as u64)
                << 24u64) | ((b4 as u64) << 32u64) | ((b5 as u64) << 40u64) | ((b6 as u64)
                << 48u64) | ((b7 as u64) << 56u64),
    ;
    assert_seqs_equal!(le_bytes(a), seq![b0, b1, b2, b3, b4, b5, b6, b7]);
}

/// Decoding the wire form of any operation gives that operation back.
pub proof fn lemma_round_trip(op: TokenInstruction)
    ensures
        decode_spec(encode_spec(op)) == Some(op),
{
    lemma_le_value_of_bytes(amount_of(op));
}

/// A buffer that decodes is exactly the wire form of what it decodes to.
pub proof fn lemma_decode_canonical(b: Seq<u8>)
    requires
        decode_spec(b) is Some,
    ensures
        encode_spec(decode_spec(b)->0) == b,
{
    lemma_bytes_of_le_value(b[1], b[2], b[3], b[4], b[5], b[6], b[7], b[8]);
    assert_seqs_equal!(encode_spec(decode_spec(b)->0), b);
}

/// A buffer of the wrong length, or of 9 bytes with an unknown tag, never decodes.
pub proof fn lemma_decode_rejects(b: Seq<u8>)
    requires
        b.len() != 9 || b[0] >= 3,
    ensures
        decode_spec(b) is None,
{
}

/// The account list of a native transfer request: source, destination, system program.
pub open spec fn lamports_metas(from: Pubkey, to: Pubkey) -> Seq<AccountMeta> {
    seq![
        AccountMeta { pubkey: from, is_signer: true, is_writable: true },
        AccountMeta { pubkey: to, is_signer: false, is_writable: true },
        AccountMeta { pubkey: Pubkey(SYSTEM_PROGRAM_ID), is_signer: false, is_writable: false },
    ]
}

/// The account list of a token request: authority, source, destination, token program.
pub open spec fn token_metas(from: Pubkey, from_token: Pubkey, to_token: Pubkey) -> Seq<AccountMeta> {
    seq![
        AccountMeta { pubkey: from, is_signer: true, is_writable: false },
        AccountMeta { pubkey: from_token, is_signer: false, is_writable: true },
        AccountMeta { pubkey: to_token, is_signer: false, is_writable: true },
        AccountMeta { pubkey: Pubkey(TOKEN_PROGRAM_ID), is_signer: false, is_writable: false },
    ]
}

/// A request to this handler carrying `op` over the accounts `metas`.
pub open spec fn is_request(r: Instruction, op: TokenInstruction, metas: Seq<AccountMeta>) -> bool {
    &&& r.program_id == Pubkey(ID)
    &&& r.data@ == encode_spec(op)
    &&& r.accounts@ == metas
}

impl TokenInstruction {
    /// Builds a request that moves `amount` of the native unit from `from` to `to`.
    pub fn transfer_lamports(from: Pubkey, to: Pubkey, amount: u64) -> (r: Instruction)
        ensures
            is_request(r, TokenInstruction::TransferLamports { amount }, lamports_metas(from, to)),
    {
        let instr = TokenInstruction::TransferLamports { amount };
        let accounts = vec![
            AccountMeta::new(from, true),
            AccountMeta::new(to, false),
            AccountMeta::new_readonly(Pubkey(SYSTEM_PROGRAM_ID), false),
        ];
        proof {
            assert_seqs_equal!(accounts@, lamports_metas(from, to));
        }
        Instruction { program_id: id(), accounts, data: instr.pack() }
    }

    /// Builds a request that moves `amount` tokens between two token accounts.
    pub fn transfer_spl_token(from: Pubkey, from_spl_token: Pubkey, to_spl_token: Pubkey, amount: u64) -> (r: Instruction)
        ensures
            is_request(
                r,
                TokenInstruction::TransferSplToken { amount },
                token_metas(from, from_spl_token, to_spl_token),
            ),
    {
        let instr = TokenInstruction::TransferSplToken { amount };
        let accounts = vec![
            AccountMeta::new_readonly(from, true),
            AccountMeta::new(from_spl_token, false),
            AccountMeta::new(to_spl_token, false),
            AccountMeta::new_readonly(Pubkey(TOKEN_PROGRAM_ID), false),
        ];
        proof {
            assert_seqs_equal!(accounts@, token_metas(from, from_spl_token, to_spl_token));
        }
        Instruction { program_id: id(), accounts, data: instr.pack() }
    }

    /// Builds a request that lets a delegate spend up to `amount` tokens.
    pub fn approve_spl_token(from: Pubkey, from_spl_token: Pubkey, to_spl_token: Pubkey, amount: u64) -> (r: Instruction)
        ensures
            is_request(
                r,
                TokenInstruction::ApproveSplToken { amount },
                token_metas(from, from_spl_token, to_spl_token),
            ),
    {
        let instr = TokenInstruction::ApproveSplToken { amount };
        let accounts = vec![
            AccountMeta::new_readonly(from, true),
            AccountMeta::new(from_spl_token, false),
            AccountMeta::new(to_spl_token, false),
            AccountMeta::new_readonly(Pubkey(TOKEN_PROGRAM_ID), false),
        ];
        proof {
            assert_seqs_equal!(accounts@, token_metas(from, from_spl_token, to_spl_token));
        }
        Instruction { program_id: id(), accounts, data: instr.pack() }
    }

    /// The amount this operation carries.
    pub fn amount(&self) -> (r: u64)
        ensures
            r == amount_of(*self),
    {
        match self {
            TokenInstruction::TransferLamports { amount } => *amount,
            TokenInstruction::TransferSplToken { amount } => *amount,
            TokenInstruction::ApproveSplToken { amount } => *amount,
        }
    }

    /// The 9-byte wire form of this operation.
    pub fn pack(&self) -> (r: Vec<u8>)
        ensures
            r@ == encode_spec(*self),
    {
        let tag: u8 = match self {
            TokenInstruction::TransferLamports { .. } => 0,
            TokenInstruction::TransferSplToken { .. } => 1,
            TokenInstruction::ApproveSplToken { .. } => 2,
        };
        let a = self.amount();
        let r = vec![
            tag,
            a as u8,
            (a >> 8u64) as u8,
            (a >> 16u64) as u8,
            (a >> 24u64) as u8,
            (a >> 32u64) as u8,
            (a >> 40u64) as u8,
            (a >> 48u64) as u8,
            (a >> 56u64) as u8,
        ];
        proof {
            assert_seqs_equal!(r@, encode_spec(*self));
        }
        r
    }

    /// Reads an operation from its wire form; anything but an exact 9-byte
    /// layout with a known tag is refused.
    pub fn unpack(input: &[u8]) -> (r: Result<TokenInstruction, Failure>)
        ensures
            match decode_spec(input@) {
                Some(op) => r == Ok::<TokenInstruction, Failure>(op),
                None => r == Err::<TokenInstruction, Failure>(Failure::MalformedInstruction),
            },
            r is Err <==> (input@.len() != 9 || input@[0] >= 3),
    {
        if input.len() != INSTRUCTION_LEN {
            return Err(Failure::MalformedInstruction);
        }
        let amount = (input[1] as u64) | ((input[2] as u64) << 8u64) | ((input[3] as u64) << 16u64)
            | ((input[4] as u64) << 24u64) | ((input[5] as u64) << 32u64) | ((input[6] as u64)
            << 40u64) | ((input[7] as u64) << 48u64) | ((input[8] as u64) << 56u64);
        let tag = input[0];
        if tag == 0 {
            Ok(TokenInstruction::TransferLamports { amount })
        } else if tag == 1 {
            Ok(TokenInstruction::TransferSplToken { amount })
        } else if tag == 2 {
            Ok(TokenInstruction::ApproveSplToken { amount })
        } else {
            Err(Failure::MalformedInstruction)
        }
    }
}

} // verus!
