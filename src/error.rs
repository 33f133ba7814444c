use vstd::prelude::*;

verus! {

/// Failure raised by this handler's own account checks.
#[derive(Clone, Copy, Debug, PartialEq, Eq, Structural)]
pub enum TransferError {
    AccountNonWritable,
}

/// Every way a dispatch can fail.
#[derive(Clone, Copy, Debug, PartialEq, Eq, Structural)]
pub enum Failure {
    /// The instruction bytes match none of the known layouts.
    MalformedInstruction,
    /// Fewer accounts were supplied than the operation's schema needs.
    MissingAccount,
    /// An account that must certify the request is not a signer.
    MissingRequiredSignature,
    /// An account that must be mutated is not writable.
    AccountNonWritable,
    /// The delegated call was rejected; the host's error code is kept as is.
    DelegatedCallFailed(u64),
}

impl TransferError {
    /// The custom error code this failure is reported under.
    pub fn code(&self) -> (r: u32)
        ensures
            r == 0,
    {
        match self {
            TransferError::AccountNonWritable => 0,
        }
    }
}

impl From<TransferError> for Failure {
    fn from(e: TransferError) -> (r: Failure) {
        match e {
            TransferError::AccountNonWritable => Failure::AccountNonWritable,
        }
    }
}

impl vstd::std_specs::convert::FromSpecImpl<TransferError> for Failure {
    open spec fn obeys_from_spec() -> bool {
        true
    }

    open spec fn from_spec(e: TransferError) -> Failure {
        match e {
            TransferError::AccountNonWritable => Failure::AccountNonWritable,
        }
    }
}

} // verus!
