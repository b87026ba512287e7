//! Typed failures of the operations.

use vstd::prelude::*;
use vstd::string::*;

verus! {

/// A primitive of the token ledger or of the metadata registry.
#[derive(Clone, Copy, Debug, PartialEq, Eq)]
pub enum Capability {
    /// Token ledger: create a token account for an owner and a mint.
    CreateAccount,
    /// Token ledger: mint an amount to an account.
    MintTo,
    /// Token ledger: replace the authority of a mint or of a token account.
    SetAuthority,
    /// Token ledger: move an amount between two accounts.
    Transfer,
    /// Metadata registry: create the metadata record of a mint.
    CreateMetadata,
    /// Metadata registry: turn a mint and its metadata into a master edition.
    CreateMasterEdition,
    /// Metadata registry: derive a numbered edition from a master edition.
    MintNewEdition,
    /// Metadata registry: pad the text fields of a metadata record to their full width.
    Puff,
}

/// Why an operation was refused.
#[derive(Clone, Copy, Debug, PartialEq, Eq)]
pub enum ErrorCode {
    /// The source account holds less than the amount to move.
    InsufficientBalance,
    /// The key presented for a privileged change is not the current authority,
    /// or it did not sign.
    UnauthorizedSigner,
    /// The metadata blob is shorter than its three fields together.
    InputTooShort,
    /// A field of the metadata blob is not text.
    InvalidField,
    /// The mint was promoted to a master edition before.
    AlreadyMaster,
    /// The mint has no metadata record.
    MetadataMissing,
    /// The master edition has issued as many editions as its cap allows.
    SupplyExhausted,
    /// The buyer's account holds no token of the master's mint.
    InsufficientProof,
    /// The token ledger or the metadata registry rejected a call. `code` is the
    /// number that it returned, or `None` where the call was ruled out before
    /// it was sent.
    CapabilityFailure { call: Capability, code: Option<u64> },
}

/// The words in which a refusal is reported.
pub open spec fn message_of(error: ErrorCode) -> Seq<char> {
    match error {
        ErrorCode::InsufficientBalance => "Insufficient Balance"@,
        ErrorCode::UnauthorizedSigner => "Unauthorized Signer"@,
        ErrorCode::InputTooShort => "Input Too Short"@,
        ErrorCode::InvalidField => "Invalid Field"@,
        ErrorCode::AlreadyMaster => "Already Master"@,
        ErrorCode::MetadataMissing => "Metadata Missing"@,
        ErrorCode::SupplyExhausted => "Supply Exhausted"@,
        ErrorCode::InsufficientProof => "Insufficient Proof"@,
        ErrorCode::CapabilityFailure { .. } => "Capability Failure"@,
    }
}

impl ErrorCode {
    /// The words in which the refusal is reported.
    pub fn message(&self) -> (text: String)
        ensures
            text@ == message_of(*self),
    {
        match self {
            ErrorCode::InsufficientBalance => String::from_str("Insufficient Balance"),
            ErrorCode::UnauthorizedSigner => String::from_str("Unauthorized Signer"),
            ErrorCode::InputTooShort => String::from_str("Input Too Short"),
            ErrorCode::InvalidField => String::from_str("Invalid Field"),
            ErrorCode::AlreadyMaster => String::from_str("Already Master"),
            ErrorCode::MetadataMissing => String::from_str("Metadata Missing"),
            ErrorCode::SupplyExhausted => String::from_str("Supply Exhausted"),
            ErrorCode::InsufficientProof => String::from_str("Insufficient Proof"),
            ErrorCode::CapabilityFailure { .. } => String::from_str("Capability Failure"),
        }
    }
}

/// A rejection by a capability that comes with the number it returned.
pub open spec fn rejected_by(error: ErrorCode, call: Capability) -> bool {
    error matches ErrorCode::CapabilityFailure { call: made, code } && made == call && code is Some
}

/// A call that is ruled out before it is sent.
pub open spec fn ruled_out(call: Capability) -> ErrorCode {
    ErrorCode::CapabilityFailure { call, code: None }
}

/// What a reply of a capability means for the operation that made the call.
pub open spec fn settled(call: Capability, reply: Result<(), u64>) -> Result<(), ErrorCode> {
    match reply {
        Ok(_) => Ok(()),
        Err(code) => if call is Puff {
            Ok(())
        } else {
            Err(ErrorCode::CapabilityFailure { call, code: Some(code) })
        },
    }
}

/// Turns the reply of a capability into the outcome of the operation that made
/// the call: a rejection ends the operation with `CapabilityFailure`, which
/// carries the call and the number returned. Padding a metadata record is best
/// effort: its rejection is not a failure.
pub fn settle(call: Capability, reply: Result<(), u64>) -> (outcome: Result<(), ErrorCode>)
    ensures
        outcome == settled(call, reply),
{
    match reply {
        Ok(_) => Ok(()),
        Err(code) => match call {
            Capability::Puff => Ok(()),
            _ => Err(ErrorCode::CapabilityFailure { call, code: Some(code) }),
        },
    }
}

} // verus!
