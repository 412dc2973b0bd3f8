//! Proof of a legal name under EEID.

use sc_keystore::LocalKeystore;
use vstd::prelude::*;
use crate::error::{outcome, ProofError, ProofErrorView};
use crate::signing::{
    build_message,
    message_outcome,
    request_for,
    signature_text,
    signature_text_outcome,
    Signed,
};
use crate::statement::{build_statement, statement_text, Claim, Platform};

verus! {

/// The claim that the person whose legal name is `legal_name` owns `address`.
pub struct EEIDProof {
    pub legal_name: String,
    pub address: String,
}

impl View for EEIDProof {
    type V = Claim;

    open spec fn view(&self) -> Claim {
        Claim { platform: Platform::Eeid, identity: self.legal_name@, address: self.address@ }
    }
}

impl EEIDProof {
    /// The statement to be signed.
    pub fn payload(&self) -> (text: String)
        ensures
            text@ == statement_text(self@),
    {
        build_statement(Platform::Eeid, self.legal_name.as_str(), self.address.as_str())
    }

    /// The signature over the statement, in hexadecimal behind `0x`, made
    /// with the key of the address.
    pub fn signature(&self, keystore: &LocalKeystore) -> (text: Result<String, ProofError>)
        ensures
            request_for(self@) matches Err(error) ==> outcome(text) == Err::<
                Seq<char>,
                ProofErrorView,
            >(error),
            exists|signed: Signed| #[trigger] signature_text_outcome(self@, signed) == outcome(text),
    {
        signature_text(Platform::Eeid, self.legal_name.as_str(), self.address.as_str(), keystore)
    }

    /// The message to publish: the statement, a space and the signature.
    pub fn message(&self, keystore: &LocalKeystore) -> (message: Result<String, ProofError>)
        ensures
            request_for(self@) matches Err(error) ==> outcome(message) == Err::<
                Seq<char>,
                ProofErrorView,
            >(error),
            exists|signed: Signed| #[trigger] message_outcome(self@, signed) == outcome(message),
    {
        build_message(Platform::Eeid, self.legal_name.as_str(), self.address.as_str(), keystore)
    }
}

} // verus!
