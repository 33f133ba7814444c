use vstd::prelude::*;
use solana_program::pubkey::Pubkey as ProgramPubkey;
use crate::instruction::le_bytes;
use crate::{AccountMeta, Instruction, Pubkey, SYSTEM_PROGRAM_ID, TOKEN_PROGRAM_ID};

verus! {

/// Error code under which the host reports a request addressed to the wrong program.
pub const INCORRECT_PROGRAM_ID: u64 = 7u64 << 32u64;

/// The accounts of the token program's transfer or approval request: the
/// source, the counterparty, the authority once as a read-only non-signer and
/// once more as its one signer.
pub open spec fn token_request_metas(source: Pubkey, other: Pubkey, other_writable: bool, authority: Pubkey) -> Seq<AccountMeta> {
    seq![
        AccountMeta { pubkey: source, is_signer: false, is_writable: true },
        AccountMeta { pubkey: other, is_signer: false, is_writable: other_writable },
        AccountMeta { pubkey: authority, is_signer: false, is_writable: false },
        AccountMeta { pubkey: authority, is_signer: true, is_writable: false },
    ]
}

/// Relies on solana_program::system_instruction::transfer: a system program
/// request over `from` (signer, writable) and `to` (writable), whose data is
/// the transfer tag 2 as four little-endian bytes, then the amount.
#[verifier::external_body]
pub(crate) fn system_transfer(from: Pubkey, to: Pubkey, lamports: u64) -> (r: Instruction)
    ensures
        r.program_id == Pubkey(SYSTEM_PROGRAM_ID),
        r.accounts@ == seq![
            AccountMeta { pubkey: from, is_signer: true, is_writable: true },
            AccountMeta { pubkey: to, is_signer: false, is_writable: true },
        ],
        r.data@ == seq![2u8, 0u8, 0u8, 0u8] + le_bytes(lamports),
{
    let ix = solana_program::system_instruction::transfer(
        &ProgramPubkey::new_from_array(from.0), &ProgramPubkey::new_from_array(to.0), lamports);
    let accounts = ix.accounts.iter().map(|m| AccountMeta {
        pubkey: Pubkey(m.pubkey.to_bytes()), is_signer: m.is_signer, is_writable: m.is_writable,
    }).collect();
    Instruction { program_id: Pubkey(ix.program_id.to_bytes()), accounts, data: ix.data }
}

/// Relies on spl_token::instruction::transfer: it refuses a program id other
/// than the token program's with IncorrectProgramId, and otherwise builds a
/// request with tag 3 and the amount, signed by the authority alone.
#[verifier::external_body]
pub(crate) fn token_transfer(
    token_program: Pubkey,
    source: Pubkey,
    destination: Pubkey,
    authority: Pubkey,
    amount: u64,
) -> (r: Result<Instruction, u64>)
    ensures
        r is Ok <==> token_program == Pubkey(TOKEN_PROGRAM_ID),
        r is Err ==> r->Err_0 == INCORRECT_PROGRAM_ID,
        r is Ok ==> r->Ok_0.program_id == token_program,
        r is Ok ==> r->Ok_0.accounts@ == token_request_metas(source, destination, true, authority),
        r is Ok ==> r->Ok_0.data@ == seq![3u8] + le_bytes(amount),
{
    let a = ProgramPubkey::new_from_array(authority.0);
    let ix = spl_token::instruction::transfer(&ProgramPubkey::new_from_array(token_program.0),
        &ProgramPubkey::new_from_array(source.0), &ProgramPubkey::new_from_array(destination.0), &a, &[&a], amount)
        .map_err(u64::from)?;
    let accounts = ix.accounts.iter().map(|m| AccountMeta {
        pubkey: Pubkey(m.pubkey.to_bytes()), is_signer: m.is_signer, is_writable: m.is_writable,
    }).collect();
    Ok(Instruction { program_id: Pubkey(ix.program_id.to_bytes()), accounts, data: ix.data })
}

/// Relies on spl_token::instruction::approve: it refuses a program id other
/// than the token program's with IncorrectProgramId, and otherwise builds a
/// request with tag 4 and the amount, signed by the owner alone.
#[verifier::external_body]
pub(crate) fn token_approve(
    token_program: Pubkey,
    source: Pubkey,
    delegate: Pubkey,
    owner: Pubkey,
    amount: u64,
) -> (r: Result<Instruction, u64>)
    ensures
        r is Ok <==> token_program == Pubkey(TOKEN_PROGRAM_ID),
        r is Err ==> r->Err_0 == INCORRECT_PROGRAM_ID,
        r is Ok ==> r->Ok_0.program_id == token_program,
        r is Ok ==> r->Ok_0.accounts@ == token_request_metas(source, delegate, false, owner),
        r is Ok ==> r->Ok_0.data@ == seq![4u8] + le_bytes(amount),
{
    let o = ProgramPubkey::new_from_array(owner.0);
    let ix = spl_token::instruction::approve(&ProgramPubkey::new_from_array(token_program.0),
        &ProgramPubkey::new_from_array(source.0), &ProgramPubkey::new_from_array(delegate.0), &o, &[&o], amount)
        .map_err(u64::from)?;
    let accounts = ix.accounts.iter().map(|m| AccountMeta {
        pubkey: Pubkey(m.pubkey.to_bytes()), is_signer: m.is_signer, is_writable: m.is_writable,
    }).collect();
    Ok(Instruction { program_id: Pubkey(ix.program_id.to_bytes()), accounts, data: ix.data })
}

} // verus!
