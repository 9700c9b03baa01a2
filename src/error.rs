//! The ways a transfer command can end early.
use vstd::prelude::*;

verus! {

/// Why a command stopped. Every variant ends the command with a message; the
/// base-unit amounts are carried whole so that they can be shown exactly.
#[derive(Debug, Clone, PartialEq, Eq)]
pub enum TransferError {
    /// No signing key was provided.
    MissingCredential,
    /// A signing key was provided but is not a well-formed secret.
    InvalidCredentialFormat,
    /// `text` is not an address; `label` says which one ("sender", "recipient").
    InvalidAddress { text: String, label: String },
    /// `text` is not an amount of whole units.
    InvalidAmount { text: String },
    /// The endpoint could not be bound.
    ConnectionError { message: String },
    /// A read against the endpoint failed.
    RpcError { message: String },
    /// `amount + gas_price * gas_limit` base units were needed and only
    /// `available` were held.
    InsufficientFunds { amount: u128, gas_price: u128, gas_limit: u64, available: u128 },
    /// The endpoint refused the signed transaction.
    SubmissionError { message: String },
}

} // verus!
