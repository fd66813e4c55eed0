use vstd::prelude::*;

verus! {

/// The failures of the escrow; each aborts a request with no effect.
#[derive(Clone, Copy, Debug, PartialEq, Eq, Structural)]
pub enum EscrowError {
    /// The request bytes do not encode a request.
    InvalidInstruction,
    /// The record account holds too little to stay rent exempt.
    NotRentExempt,
    /// The custodial balance does not reconcile with the trade.
    ExpectedAmountMismatch,
    /// The record was already opened.
    AlreadyInitialized,
    /// The record is not open.
    NotInitialized,
    /// A supplied account is not the one the trade is bound to.
    InvalidAccountBinding,
    /// A party that must authorise the request did not sign it.
    MissingRequiredSignature,
    /// No custody authority can be derived from the seed and program id.
    InvalidSeeds,
    /// The stored record bytes are not a record.
    InvalidAccountData,
}

} // verus!
