//! Signing a claim's statement with a key from the key store.

use sc_keystore::LocalKeystore;
use sp_core::crypto::KeyTypeId;
use sp_core::sr25519::Public;
use sp_keystore::Keystore;
use vstd::prelude::*;
use vstd::string::StringSliceAdditionalSpecFns;
use crate::address::{decode_polkadot_address, polkadot_key, ss58_decode, POLKADOT_ACCOUNT};
use crate::error::{outcome, ProofError, ProofErrorView};
use crate::hex::{encode_prefixed_hex, prefixed_hex};
use crate::statement::{
    build_signed_message,
    build_statement,
    lemma_signed_message_shape,
    signed_message_text,
    statement_bytes,
    statement_text,
    Claim,
    Platform,
};

verus! {

/// The key type under which the key store keeps the keys that sign proofs:
/// the letters `sr25`. One scheme, sr25519, serves every proof.
pub const SR25519: [u8; 4] = [0x73, 0x72, 0x32, 0x35];

/// `sc_keystore::LocalKeystore`, the key store on disk or in memory. It is
/// handed through to the call that signs; nothing is known of what it holds.
#[verifier::external_type_specification]
#[verifier::external_body]
pub struct ExLocalKeystore(LocalKeystore);

/// `sp_keystore::Error`, the key store's own error. Only that it occurred is
/// read from it.
#[verifier::external_type_specification]
#[verifier::external_body]
pub struct ExKeystoreError(sp_keystore::Error);

/// What the key store is asked: to sign `message` with the private key
/// that it keeps under `key_type` for `public`, the key of `address`.
pub struct SigningRequest {
    pub address: String,
    pub key_type: [u8; 4],
    pub public: [u8; 32],
    pub message: Vec<u8>,
}

/// A `SigningRequest` over sequences.
pub struct SigningRequestView {
    pub address: Seq<char>,
    pub key_type: Seq<u8>,
    pub public: Seq<u8>,
    pub message: Seq<u8>,
}

impl View for SigningRequest {
    type V = SigningRequestView;

    open spec fn view(&self) -> SigningRequestView {
        SigningRequestView {
            address: self.address@,
            key_type: self.key_type@,
            public: self.public@,
            message: self.message@,
        }
    }
}

impl SigningRequest {
    /// The request names the sr25519 key of a Polkadot account address: the
    /// signature that answers it is made with the key that the address in
    /// the statement decodes to.
    pub open spec fn well_formed(&self) -> bool {
        &&& self.key_type@ == SR25519@
        &&& ss58_decode(self.address@) == Some((self.public@, POLKADOT_ACCOUNT))
    }
}

/// What the key store answered.
pub type Signed = Result<Option<[u8; 64]>, sp_keystore::Error>;

/// The request that signing `claim` puts to the key store, or the reason
/// why the store is not asked at all.
pub open spec fn request_for(claim: Claim) -> Result<SigningRequestView, ProofErrorView> {
    match polkadot_key(claim.address) {
        Err(error) => Err(error),
        Ok(public) => Ok(
            SigningRequestView {
                address: claim.address,
                key_type: SR25519@,
                public,
                message: statement_bytes(claim),
            },
        ),
    }
}

/// The signature for `address`, given the key store's answer: a store
/// without the key, or one that fails, ends the attempt.
pub open spec fn signature_outcome(address: Seq<char>, signed: Signed) -> Result<
    Seq<u8>,
    ProofErrorView,
> {
    match signed {
        Ok(Some(signature)) => Ok(signature@),
        Ok(None) => Err(ProofErrorView::KeyNotFound { address }),
        Err(_) => Err(ProofErrorView::KeyStoreUnavailable),
    }
}

/// How signing `claim` ends if the key store, where it is asked, answers
/// `signed`.
pub open spec fn sign_outcome(claim: Claim, signed: Signed) -> Result<Seq<u8>, ProofErrorView> {
    match request_for(claim) {
        Err(error) => Err(error),
        Ok(_) => signature_outcome(claim.address, signed),
    }
}

/// The same, with the signature as the text that is published.
pub open spec fn signature_text_outcome(claim: Claim, signed: Signed) -> Result<
    Seq<char>,
    ProofErrorView,
> {
    match sign_outcome(claim, signed) {
        Err(error) => Err(error),
        Ok(signature) => Ok(prefixed_hex(signature)),
    }
}

/// The same, with the whole signed message.
pub open spec fn message_outcome(claim: Claim, signed: Signed) -> Result<
    Seq<char>,
    ProofErrorView,
> {
    match sign_outcome(claim, signed) {
        Err(error) => Err(error),
        Ok(signature) => Ok(signed_message_text(statement_text(claim), signature)),
    }
}

/// Calls `sp_keystore::Keystore::sr25519_sign` on an
/// `sc_keystore::LocalKeystore`, with the request's key type, public key
/// and message, and hands on the signature's 64 bytes. `Ok(None)` is the
/// store's word for a key that it does not hold. Nothing is promised of the
/// answer: it hangs on what the store holds, and the signature on chance.
/// The store is only ever asked on a well-formed request.
#[verifier::external_body]
fn keystore_sign(keystore: &LocalKeystore, request: &SigningRequest) -> (signed: Signed)
    requires
        request.well_formed(),
{
    let public = Public::from_raw(request.public);
    match keystore.sr25519_sign(KeyTypeId(request.key_type), &public, &request.message) {
        Ok(Some(signature)) => Ok(Some(signature.0)),
        Ok(None) => Ok(None),
        Err(error) => Err(error),
    }
}

/// Prepares the signing of a claim: decodes the address, checks that it is
/// one of Polkadot, and puts the statement's bytes beside the key. An error
/// here means that the key store is not to be asked.
pub fn signing_request(platform: Platform, identity: &str, address: &str) -> (request: Result<
    SigningRequest,
    ProofError,
>)
    ensures
        outcome(request) == request_for(Claim { platform, identity: identity@, address: address@ }),
        request matches Ok(made) ==> made.well_formed(),
{
    match decode_polkadot_address(address) {
        Err(error) => Err(error),
        Ok(public) => {
            let statement = build_statement(platform, identity, address);
            let message = statement.as_str().as_bytes_vec();
            Ok(
                SigningRequest {
                    address: String::from_str(address),
                    key_type: SR25519,
                    public,
                    message,
                },
            )
        },
    }
}

/// Reads the key store's answer to a request for the key of `address`.
pub fn accept_signed(address: &str, signed: Signed) -> (signature: Result<[u8; 64], ProofError>)
    ensures
        outcome(signature) == signature_outcome(address@, signed),
{
    match signed {
        Ok(Some(signature)) => Ok(signature),
        Ok(None) => Err(ProofError::KeyNotFound { address: String::from_str(address) }),
        Err(_) => Err(ProofError::KeyStoreUnavailable),
    }
}

/// Signs the statement of a claim with the key of its address, which
/// `keystore` must hold. The key store is asked once, and only if the
/// address is one of Polkadot; its answer alone decides the rest.
pub fn sign(
    platform: Platform,
    identity: &str,
    address: &str,
    keystore: &LocalKeystore,
) -> (signature: Result<[u8; 64], ProofError>)
    ensures
        request_for(Claim { platform, identity: identity@, address: address@ }) matches Err(error)
            ==> outcome(signature) == Err::<Seq<u8>, ProofErrorView>(error),
        exists|signed: Signed| #[trigger]
            sign_outcome(Claim { platform, identity: identity@, address: address@ }, signed)
                == outcome(signature),
{
    let ghost claim = Claim { platform, identity: identity@, address: address@ };
    match signing_request(platform, identity, address) {
        Err(error) => {
            assert(sign_outcome(claim, Ok(None)) == Err::<Seq<u8>, ProofErrorView>(error@));
            Err(error)
        },
        Ok(request) => {
            let signed = keystore_sign(keystore, &request);
            let signature = accept_signed(address, signed);
            assert(sign_outcome(claim, signed) == outcome(signature));
            signature
        },
    }
}

/// Signs as `sign` does, and writes the signature as it is published: in
/// hexadecimal behind `0x`.
pub fn signature_text(
    platform: Platform,
    identity: &str,
    address: &str,
    keystore: &LocalKeystore,
) -> (text: Result<String, ProofError>)
    ensures
        request_for(Claim { platform, identity: identity@, address: address@ }) matches Err(error)
            ==> outcome(text) == Err::<Seq<char>, ProofErrorView>(error),
        exists|signed: Signed| #[trigger]
            signature_text_outcome(
                Claim { platform, identity: identity@, address: address@ },
                signed,
            ) == outcome(text),
{
    let ghost claim = Claim { platform, identity: identity@, address: address@ };
    let signature = sign(platform, identity, address, keystore);
    let ghost signed = choose|signed: Signed| sign_outcome(claim, signed) == outcome(signature);
    let text = match signature {
        Err(error) => Err(error),
        Ok(bytes) => Ok(encode_prefixed_hex(bytes.as_slice())),
    };
    assert(signature_text_outcome(claim, signed) == outcome(text));
    text
}

/// Builds the signed message of a claim: its statement, one space, and the
/// signature over the statement's bytes as `signature_text` writes it.
pub fn build_message(
    platform: Platform,
    identity: &str,
    address: &str,
    keystore: &LocalKeystore,
) -> (message: Result<String, ProofError>)
    ensures
        request_for(Claim { platform, identity: identity@, address: address@ }) matches Err(error)
            ==> outcome(message) == Err::<Seq<char>, ProofErrorView>(error),
        exists|signed: Signed| #[trigger]
            message_outcome(Claim { platform, identity: identity@, address: address@ }, signed)
                == outcome(message),
{
    let ghost claim = Claim { platform, identity: identity@, address: address@ };
    let signature = sign(platform, identity, address, keystore);
    let ghost signed = choose|signed: Signed| sign_outcome(claim, signed) == outcome(signature);
    let message = match signature {
        Err(error) => Err(error),
        Ok(bytes) => {
            let statement = build_statement(platform, identity, address);
            Ok(build_signed_message(statement.as_str(), bytes.as_slice()))
        },
    };
    assert(message_outcome(claim, signed) == outcome(message));
    message
}

/// An address of another network is refused whatever the key store holds:
/// signing ends with `NetworkMismatch` for every answer that the store
/// could give, so the store has no part in it.
pub proof fn lemma_foreign_address_refused(
    claim: Claim,
    public: Seq<u8>,
    version: u16,
    signed: Signed,
)
    requires
        ss58_decode(claim.address) == Some((public, version)),
        version != POLKADOT_ACCOUNT,
    ensures
        request_for(claim) is Err,
        sign_outcome(claim, signed) == Err::<Seq<u8>, ProofErrorView>(
            ProofErrorView::NetworkMismatch { address: claim.address, version },
        ),
        message_outcome(claim, signed) == Err::<Seq<char>, ProofErrorView>(
            ProofErrorView::NetworkMismatch { address: claim.address, version },
        ),
{
}

/// A message that was built holds the statement and a signature of 64
/// bytes: 131 characters follow the statement.
pub proof fn lemma_message_length(claim: Claim, signed: Signed)
    ensures
        message_outcome(claim, signed) matches Ok(message) ==> message.len() == statement_text(
            claim,
        ).len() + 131,
{
    if let Ok(signature) = sign_outcome(claim, signed) {
        lemma_signed_message_shape(statement_text(claim), signature);
    }
}

} // verus!
