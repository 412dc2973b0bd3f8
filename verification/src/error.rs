//! The ways in which building a proof can fail.

use vstd::prelude::*;
use crate::decimal::{decimal_text, encode_decimal};

verus! {

/// Why a proof could not be built or a command not carried out. Each
/// variant names the input that caused it.
#[derive(Debug, PartialEq, Eq)]
pub enum ProofError {
    /// The address is not well-formed SS58 text, or its checksum is wrong.
    AddressDecode { address: String },
    /// The address is well formed but carries the version of another
    /// network.
    NetworkMismatch { address: String, version: u16 },
    /// The key store holds no private key for the address.
    KeyNotFound { address: String },
    /// The key store could not be used.
    KeyStoreUnavailable,
    /// The command is reserved and does nothing yet.
    Unimplemented { command: String },
}

/// A `ProofError` with its texts as sequences of characters.
pub enum ProofErrorView {
    AddressDecode { address: Seq<char> },
    NetworkMismatch { address: Seq<char>, version: u16 },
    KeyNotFound { address: Seq<char> },
    KeyStoreUnavailable,
    Unimplemented { command: Seq<char> },
}

impl View for ProofError {
    type V = ProofErrorView;

    open spec fn view(&self) -> ProofErrorView {
        match *self {
            ProofError::AddressDecode { address } => ProofErrorView::AddressDecode {
                address: address@,
            },
            ProofError::NetworkMismatch { address, version } => ProofErrorView::NetworkMismatch {
                address: address@,
                version,
            },
            ProofError::KeyNotFound { address } => ProofErrorView::KeyNotFound {
                address: address@,
            },
            ProofError::KeyStoreUnavailable => ProofErrorView::KeyStoreUnavailable,
            ProofError::Unimplemented { command } => ProofErrorView::Unimplemented {
                command: command@,
            },
        }
    }
}

/// A result with both sides as their views.
pub open spec fn outcome<T: View>(result: Result<T, ProofError>) -> Result<T::V, ProofErrorView> {
    match result {
        Ok(value) => Ok(value@),
        Err(error) => Err(error@),
    }
}

/// The sentence that tells a user what went wrong.
pub open spec fn description_text(error: ProofErrorView) -> Seq<char> {
    match error {
        ProofErrorView::AddressDecode { address } => "address "@ + address
            + " is not a valid SS58 address"@,
        ProofErrorView::NetworkMismatch { address, version } => "address "@ + address
            + " carries network version "@ + decimal_text(version as nat)
            + ", which is not that of Polkadot"@,
        ProofErrorView::KeyNotFound { address } => "the key store holds no key for address "@
            + address,
        ProofErrorView::KeyStoreUnavailable => "the key store is unavailable"@,
        ProofErrorView::Unimplemented { command } => "command "@ + command
            + " is not implemented"@,
    }
}

impl ProofError {
    /// A message for the user, naming the input at fault.
    pub fn describe(&self) -> (text: String)
        ensures
            text@ == description_text(self@),
    {
        match self {
            ProofError::AddressDecode { address } => {
                let mut text = String::from_str("address ");
                text.append(address.as_str());
                text.append(" is not a valid SS58 address");
                text
            },
            ProofError::NetworkMismatch { address, version } => {
                let mut text = String::from_str("address ");
                text.append(address.as_str());
                text.append(" carries network version ");
                let number = encode_decimal(*version);
                text.append(number.as_str());
                text.append(", which is not that of Polkadot");
                text
            },
            ProofError::KeyNotFound { address } => {
                let mut text = String::from_str("the key store holds no key for address ");
                text.append(address.as_str());
                text
            },
            ProofError::KeyStoreUnavailable => String::from_str("the key store is unavailable"),
            ProofError::Unimplemented { command } => {
                let mut text = String::from_str("command ");
                text.append(command.as_str());
                text.append(" is not implemented");
                text
            },
        }
    }
}

} // verus!
