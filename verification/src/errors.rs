//! The failures an operation can report.

use vstd::prelude::*;

verus! {

/// Why an operation was rejected. A rejected operation leaves every record
/// and the event log exactly as it found them.
#[derive(Clone, Copy, Debug, PartialEq, Eq, Structural, Hash)]
pub enum PushCommError {
    /// The signer is not the authority that guards the field.
    Unauthorized,
    /// An argument is malformed, too long, or the null identity.
    InvalidArgument,
    /// Pause was requested while the deployment is paused.
    AlreadyPaused,
    /// Unpause was requested while the deployment is running.
    NotPaused,
    /// The operation is blocked while the deployment is paused.
    ContractPaused,
    /// A signature parameter is malformed.
    InvalidSignature,
    /// The user already receives the channel (strict policy only).
    AlreadySubscribed,
    /// The user does not receive the channel.
    NotSubscribed,
    /// A counter would drop below zero.
    Underflow,
    /// A counter would exceed its 64-bit range.
    Overflow,
    /// The delegate is already active (strict policy only).
    DelegateAlreadyAdded,
    /// The delegate is not active (strict policy only).
    DelegateNotFound,
}

impl PushCommError {
    /// The human-readable text of each failure.
    pub open spec fn spec_message(self) -> Seq<char> {
        match self {
            PushCommError::Unauthorized => "Unauthorized access"@,
            PushCommError::InvalidArgument => "Invalid argument provided"@,
            PushCommError::AlreadyPaused => "Program is currently paused"@,
            PushCommError::NotPaused => "Program is not paused"@,
            PushCommError::ContractPaused => "Contract is Paused"@,
            PushCommError::InvalidSignature => "Invalid Signature Parameters"@,
            PushCommError::AlreadySubscribed => "Already Subscribed to this channel"@,
            PushCommError::NotSubscribed => "Not Subscribed to this channel"@,
            PushCommError::Underflow => "Underflow Error"@,
            PushCommError::Overflow => "Overflow Error"@,
            PushCommError::DelegateAlreadyAdded => "Delegate Already Added"@,
            PushCommError::DelegateNotFound => "Delegate Not Added or Removed"@,
        }
    }

    /// Renders the failure as text.
    pub fn message(&self) -> (r: String)
        ensures
            r@ == self.spec_message(),
    {
        match self {
            PushCommError::Unauthorized => String::from_str("Unauthorized access"),
            PushCommError::InvalidArgument => String::from_str("Invalid argument provided"),
            PushCommError::AlreadyPaused => String::from_str("Program is currently paused"),
            PushCommError::NotPaused => String::from_str("Program is not paused"),
            PushCommError::ContractPaused => String::from_str("Contract is Paused"),
            PushCommError::InvalidSignature => String::from_str("Invalid Signature Parameters"),
            PushCommError::AlreadySubscribed => String::from_str(
                "Already Subscribed to this channel",
            ),
            PushCommError::NotSubscribed => String::from_str("Not Subscribed to this channel"),
            PushCommError::Underflow => String::from_str("Underflow Error"),
            PushCommError::Overflow => String::from_str("Overflow Error"),
            PushCommError::DelegateAlreadyAdded => String::from_str("Delegate Already Added"),
            PushCommError::DelegateNotFound => String::from_str("Delegate Not Added or Removed"),
        }
    }
}

/// Why a deployment refused an operation.
#[derive(Clone, Copy, Debug, PartialEq, Eq, Structural)]
pub enum LedgerError {
    /// `initialize` found the configuration already in place.
    AlreadyInitialized,
    /// The operation needs the configuration, and there is none yet.
    NotInitialized,
    /// The operation itself failed.
    Program(PushCommError),
}

} // verus!
