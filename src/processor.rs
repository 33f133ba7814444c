use vstd::prelude::*;
use crate::error::{Failure, TransferError};
use crate::instruction::{decode_spec, encode_spec, lemma_round_trip, TokenInstruction};
use crate::cpi::{system_transfer, token_approve, token_request_metas, token_transfer, INCORRECT_PROGRAM_ID};
use crate::instruction::le_bytes;
use crate::{AccountMeta, AccountInfo, Instruction, Pubkey, SYSTEM_PROGRAM_ID, TOKEN_PROGRAM_ID};

verus! {

/// The one call to an outside program that a successful dispatch asks the
/// host to make, with the keys of the checked accounts it acts on.
#[derive(Clone, Copy, Debug, PartialEq, Eq)]
pub enum DelegatedCall {
    /// Native transfer through the system program; the host passes it the
    /// first two supplied accounts.
    NativeTransfer { from: Pubkey, to: Pubkey, amount: u64 },
    /// Token transfer through the token program; the host passes it the
    /// first four supplied accounts.
    TokenTransfer {
        token_program: Pubkey,
        source: Pubkey,
        destination: Pubkey,
        authority: Pubkey,
        amount: u64,
    },
    /// Token approval through the token program; the host passes it the
    /// first four supplied accounts.
    TokenApprove {
        token_program: Pubkey,
        source: Pubkey,
        delegate: Pubkey,
        authority: Pubkey,
        amount: u64,
    },
}

/// How many of the supplied accounts, from the first, a call is handed.
pub open spec fn call_account_count(c: DelegatedCall) -> usize {
    match c {
        DelegatedCall::NativeTransfer { .. } => 2,
        _ => 4,
    }
}

/// Outcome of the native transfer schema: source signs and is writable,
/// destination is writable; any further accounts are not looked at.
pub open spec fn transfer_lamports_spec(accounts: Seq<AccountInfo>, amount: u64) -> Result<DelegatedCall, Failure> {
    if accounts.len() < 2 {
        Err(Failure::MissingAccount)
    } else if !accounts[0].is_signer {
        Err(Failure::MissingRequiredSignature)
    } else if !accounts[0].is_writable || !accounts[1].is_writable {
        Err(Failure::AccountNonWritable)
    } else {
        Ok(DelegatedCall::NativeTransfer { from: accounts[0].key, to: accounts[1].key, amount })
    }
}

/// Checks shared by both token schemas: the authority signs, the two token
/// accounts are writable, and a fourth account stands for the token program.
pub open spec fn token_check_spec(accounts: Seq<AccountInfo>) -> Option<Failure> {
    if accounts.len() < 4 {
        Some(Failure::MissingAccount)
    } else if !accounts[0].is_signer {
        Some(Failure::MissingRequiredSignature)
    } else if !accounts[1].is_writable || !accounts[2].is_writable {
        Some(Failure::AccountNonWritable)
    } else {
        None
    }
}

/// Outcome of the token transfer schema.
pub open spec fn transfer_spl_token_spec(accounts: Seq<AccountInfo>, amount: u64) -> Result<DelegatedCall, Failure> {
    match token_check_spec(accounts) {
        Some(f) => Err(f),
        None => Ok(
            DelegatedCall::TokenTransfer {
                token_program: accounts[3].key,
                source: accounts[1].key,
                destination: accounts[2].key,
                authority: accounts[0].key,
                amount,
            },
        ),
    }
}

/// Outcome of the token approval schema.
pub open spec fn approve_spl_token_spec(accounts: Seq<AccountInfo>, amount: u64) -> Result<DelegatedCall, Failure> {
    match token_check_spec(accounts) {
        Some(f) => Err(f),
        None => Ok(
            DelegatedCall::TokenApprove {
                token_program: accounts[3].key,
                source: accounts[1].key,
                delegate: accounts[2].key,
                authority: accounts[0].key,
                amount,
            },
        ),
    }
}

/// Outcome of a dispatch: decode, then check the decoded operation's schema.
pub open spec fn process_spec(accounts: Seq<AccountInfo>, input: Seq<u8>) -> Result<DelegatedCall, Failure> {
    match decode_spec(input) {
        None => Err(Failure::MalformedInstruction),
        Some(TokenInstruction::TransferLamports { amount }) => transfer_lamports_spec(accounts, amount),
        Some(TokenInstruction::TransferSplToken { amount }) => transfer_spl_token_spec(accounts, amount),
        Some(TokenInstruction::ApproveSplToken { amount }) => approve_spl_token_spec(accounts, amount),
    }
}

/// How many accounts the schema of an operation reads.
pub open spec fn schema_len(op: TokenInstruction) -> nat {
    match op {
        TokenInstruction::TransferLamports { .. } => 2,
        _ => 4,
    }
}

/// A native transfer whose source has not signed fails for want of a
/// signature, whatever the writable flags of the accounts.
pub proof fn lemma_signer_checked_first(accounts: Seq<AccountInfo>, amount: u64)
    requires
        accounts.len() >= 2,
        !accounts[0].is_signer,
    ensures
        process_spec(accounts, encode_spec(TokenInstruction::TransferLamports { amount }))
            == Err::<DelegatedCall, Failure>(Failure::MissingRequiredSignature),
{
    lemma_round_trip(TokenInstruction::TransferLamports { amount });
}

/// A native transfer with a signing source but a read-only destination fails
/// as non-writable, and so asks for no call.
pub proof fn lemma_destination_must_be_writable(accounts: Seq<AccountInfo>, amount: u64)
    requires
        accounts.len() >= 2,
        accounts[0].is_signer,
        !accounts[1].is_writable,
    ensures
        process_spec(accounts, encode_spec(TokenInstruction::TransferLamports { amount }))
            == Err::<DelegatedCall, Failure>(Failure::AccountNonWritable),
{
    lemma_round_trip(TokenInstruction::TransferLamports { amount });
}

/// A token transfer or approval with a signing authority and writable token
/// accounts succeeds, and the authority's own writable flag changes nothing.
pub proof fn lemma_authority_writability_irrelevant(accounts: Seq<AccountInfo>, op: TokenInstruction)
    requires
        !(op is TransferLamports),
        accounts.len() >= 4,
        accounts[0].is_signer,
        accounts[1].is_writable,
        accounts[2].is_writable,
    ensures
        process_spec(accounts, encode_spec(op)) is Ok,
        process_spec(
            accounts.update(0, AccountInfo { is_writable: !accounts[0].is_writable, ..accounts[0] }),
            encode_spec(op),
        ) == process_spec(accounts, encode_spec(op)),
{
    lemma_round_trip(op);
}

/// The token schemas ignore the authority's writable flag: flipping it
/// leaves the outcome of a token transfer and of a token approval unchanged.
pub proof fn lemma_token_schemas_ignore_authority_writability(accounts: Seq<AccountInfo>, amount: u64)
    requires
        accounts.len() >= 1,
    ensures
        ({
            let flipped = accounts.update(0, AccountInfo { is_writable: !accounts[0].is_writable, ..accounts[0] });
            &&& transfer_spl_token_spec(flipped, amount) == transfer_spl_token_spec(accounts, amount)
            &&& approve_spl_token_spec(flipped, amount) == approve_spl_token_spec(accounts, amount)
        }),
{
}

/// Only the first accounts that an operation's schema reads decide the
/// outcome: whatever follows them, in number, keys or flags, changes nothing.
pub proof fn lemma_extra_accounts_ignored(accounts: Seq<AccountInfo>, other: Seq<AccountInfo>, op: TokenInstruction)
    requires
        accounts.len() >= schema_len(op),
        other.len() >= schema_len(op),
        accounts.subrange(0, schema_len(op) as int) == other.subrange(0, schema_len(op) as int),
    ensures
        process_spec(accounts, encode_spec(op)) == process_spec(other, encode_spec(op)),
{
    lemma_round_trip(op);
    let n = schema_len(op) as int;
    assert forall|i: int| 0 <= i < n implies accounts[i] == other[i] by {
        assert(accounts.subrange(0, n)[i] == other.subrange(0, n)[i]);
    }
}

/// Too few accounts for the operation's schema fail as a missing account,
/// before any flag is looked at.
pub proof fn lemma_missing_account(accounts: Seq<AccountInfo>, op: TokenInstruction)
    requires
        accounts.len() < schema_len(op),
    ensures
        process_spec(accounts, encode_spec(op)) == Err::<DelegatedCall, Failure>(Failure::MissingAccount),
{
    lemma_round_trip(op);
}

/// Whether the outside program accepts building the request for a call: the
/// token program builds requests only when addressed by its own id.
pub open spec fn call_accepted(c: DelegatedCall) -> bool {
    match c {
        DelegatedCall::NativeTransfer { .. } => true,
        DelegatedCall::TokenTransfer { token_program, .. } => token_program == Pubkey(TOKEN_PROGRAM_ID),
        DelegatedCall::TokenApprove { token_program, .. } => token_program == Pubkey(TOKEN_PROGRAM_ID),
    }
}

/// Whether `ix` is the outside program's request that carries out `c`: the
/// system program's transfer, or the token program's transfer or approval
/// signed by the authority alone.
pub open spec fn is_delegated_request(c: DelegatedCall, ix: Instruction) -> bool {
    match c {
        DelegatedCall::NativeTransfer { from, to, amount } => {
            &&& ix.program_id == Pubkey(SYSTEM_PROGRAM_ID)
            &&& ix.accounts@ == seq![
                AccountMeta { pubkey: from, is_signer: true, is_writable: true },
                AccountMeta { pubkey: to, is_signer: false, is_writable: true },
            ]
            &&& ix.data@ == seq![2u8, 0u8, 0u8, 0u8] + le_bytes(amount)
        },
        DelegatedCall::TokenTransfer { token_program, source, destination, authority, amount } => {
            &&& ix.program_id == token_program
            &&& ix.accounts@ == token_request_metas(source, destination, true, authority)
            &&& ix.data@ == seq![3u8] + le_bytes(amount)
        },
        DelegatedCall::TokenApprove { token_program, source, delegate, authority, amount } => {
            &&& ix.program_id == token_program
            &&& ix.accounts@ == token_request_metas(source, delegate, false, authority)
            &&& ix.data@ == seq![4u8] + le_bytes(amount)
        },
    }
}

/// A native transfer whose source signs and is writable and whose destination
/// is writable asks for the system transfer of the amount from the source's
/// key to the destination's key, which the system program always builds.
pub proof fn lemma_native_transfer_accepted(accounts: Seq<AccountInfo>, amount: u64)
    requires
        accounts.len() >= 2,
        accounts[0].is_signer,
        accounts[0].is_writable,
        accounts[1].is_writable,
    ensures
        process_spec(accounts, encode_spec(TokenInstruction::TransferLamports { amount }))
            == Ok::<DelegatedCall, Failure>(
            DelegatedCall::NativeTransfer { from: accounts[0].key, to: accounts[1].key, amount },
        ),
        call_accepted(DelegatedCall::NativeTransfer { from: accounts[0].key, to: accounts[1].key, amount }),
{
    lemma_round_trip(TokenInstruction::TransferLamports { amount });
}

/// A token transfer or approval with a signing authority, writable token
/// accounts and the token program in the fourth place is accepted, whatever
/// the authority's writable flag, duplicate keys or the amount.
pub proof fn lemma_token_call_accepted(accounts: Seq<AccountInfo>, op: TokenInstruction)
    requires
        !(op is TransferLamports),
        accounts.len() >= 4,
        accounts[0].is_signer,
        accounts[1].is_writable,
        accounts[2].is_writable,
        accounts[3].key == Pubkey(TOKEN_PROGRAM_ID),
    ensures
        process_spec(accounts, encode_spec(op)) is Ok,
        call_accepted(process_spec(accounts, encode_spec(op))->Ok_0),
{
    lemma_round_trip(op);
}

impl DelegatedCall {
    /// The outside program's request that carries out this call. The token
    /// program refuses a program id other than its own; that refusal is
    /// reported as a failed delegated call with its error code.
    pub fn instruction(&self) -> (r: Result<Instruction, Failure>)
        ensures
            r is Ok <==> call_accepted(*self),
            r is Ok ==> is_delegated_request(*self, r->Ok_0),
            r is Err ==> r == Err::<Instruction, Failure>(Failure::DelegatedCallFailed(INCORRECT_PROGRAM_ID)),
    {
        let built = match *self {
            DelegatedCall::NativeTransfer { from, to, amount } => Ok(system_transfer(from, to, amount)),
            DelegatedCall::TokenTransfer { token_program, source, destination, authority, amount } =>
                token_transfer(token_program, source, destination, authority, amount),
            DelegatedCall::TokenApprove { token_program, source, delegate, authority, amount } =>
                token_approve(token_program, source, delegate, authority, amount),
        };
        match built {
            Ok(ix) => Ok(ix),
            Err(code) => Err(Failure::DelegatedCallFailed(code)),
        }
    }

    /// How many of the supplied accounts, from the first, this call is handed.
    pub fn account_count(&self) -> (r: usize)
        ensures
            r == call_account_count(*self),
    {
        match self {
            DelegatedCall::NativeTransfer { .. } => 2,
            DelegatedCall::TokenTransfer { .. } => 4,
            DelegatedCall::TokenApprove { .. } => 4,
        }
    }
}

/// Validates requests and says which outside call carries them out.
pub struct Processor;

impl Processor {
    /// Decodes `input`, checks the supplied accounts against the operation's
    /// schema, and returns the single call that performs it.
    pub fn process(_program_id: &Pubkey, accounts: &[AccountInfo], input: &[u8]) -> (r: Result<DelegatedCall, Failure>)
        ensures
            r == process_spec(accounts@, input@),
    {
        let instr = TokenInstruction::unpack(input)?;
        match instr {
            TokenInstruction::TransferLamports { amount } => Self::transfer_lamports(accounts, amount),
            TokenInstruction::TransferSplToken { amount } => Self::transfer_spl_token(accounts, amount),
            TokenInstruction::ApproveSplToken { amount } => Self::approve_spl_token(accounts, amount),
        }
    }

    /// Outcome of a dispatch once the host has made the call: the host's
    /// failure is passed on unchanged.
    pub fn finish(outcome: Result<(), u64>) -> (r: Result<(), Failure>)
        ensures
            match outcome {
                Ok(()) => r is Ok,
                Err(code) => r == Err::<(), Failure>(Failure::DelegatedCallFailed(code)),
            },
    {
        match outcome {
            Ok(()) => Ok(()),
            Err(code) => Err(Failure::DelegatedCallFailed(code)),
        }
    }

    fn transfer_lamports(accounts: &[AccountInfo], amount: u64) -> (r: Result<DelegatedCall, Failure>)
        ensures
            r == transfer_lamports_spec(accounts@, amount),
    {
        if accounts.len() < 2 {
            return Err(Failure::MissingAccount);
        }
        let from_acc = accounts[0];
        let to_acc = accounts[1];
        if !from_acc.is_signer {
            return Err(Failure::MissingRequiredSignature);
        }
        if !from_acc.is_writable {
            return Err(Failure::from(TransferError::AccountNonWritable));
        }
        if !to_acc.is_writable {
            return Err(Failure::from(TransferError::AccountNonWritable));
        }
        Ok(DelegatedCall::NativeTransfer { from: from_acc.key, to: to_acc.key, amount })
    }

    fn check_token_accounts(accounts: &[AccountInfo]) -> (r: Option<Failure>)
        ensures
            r == token_check_spec(accounts@),
    {
        if accounts.len() < 4 {
            return Some(Failure::MissingAccount);
        }
        if !accounts[0].is_signer {
            return Some(Failure::MissingRequiredSignature);
        }
        if !accounts[1].is_writable {
            return Some(Failure::from(TransferError::AccountNonWritable));
        }
        if !accounts[2].is_writable {
            return Some(Failure::from(TransferError::AccountNonWritable));
        }
        None
    }

    fn transfer_spl_token(accounts: &[AccountInfo], amount: u64) -> (r: Result<DelegatedCall, Failure>)
        ensures
            r == transfer_spl_token_spec(accounts@, amount),
    {
        if let Some(f) = Self::check_token_accounts(accounts) {
            return Err(f);
        }
        Ok(
            DelegatedCall::TokenTransfer {
                token_program: accounts[3].key,
                source: accounts[1].key,
                destination: accounts[2].key,
                authority: accounts[0].key,
                amount,
            },
        )
    }

    fn approve_spl_token(accounts: &[AccountInfo], amount: u64) -> (r: Result<DelegatedCall, Failure>)
        ensures
            r == approve_spl_token_spec(accounts@, amount),
    {
        if let Some(f) = Self::check_token_accounts(accounts) {
            return Err(f);
        }
        Ok(
            DelegatedCall::TokenApprove {
                token_program: accounts[3].key,
                source: accounts[1].key,
                delegate: accounts[2].key,
                authority: accounts[0].key,
                amount,
            },
        )
    }
}

} // verus!
