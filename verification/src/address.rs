//! Addresses: SS58 text that holds a network version and a public key.

use sp_core::crypto::{PublicError, Ss58Codec};
use sp_core::sr25519::Public;
use vstd::prelude::*;
use crate::error::{outcome, ProofError, ProofErrorView};

verus! {

/// The network version that a Polkadot account address carries.
pub const POLKADOT_ACCOUNT: u16 = 0;

/// What the SS58 codec of `sp_core` reads out of `address`: the public key
/// and the network version, or `None` where the text is no well-formed
/// address of an sr25519 key (not base 58, of a wrong length, of a reserved
/// version, or with a wrong checksum).
pub uninterp spec fn ss58_decode(address: Seq<char>) -> Option<(Seq<u8>, u16)>;

/// `sp_core::crypto::PublicError`, the codec's reason for refusing a text.
/// Only that it occurred is read from it.
#[verifier::external_type_specification]
#[verifier::external_body]
pub struct ExPublicError(PublicError);

/// Calls `sp_core::crypto::Ss58Codec::from_ss58check_with_version` for
/// `sp_core::sr25519::Public`. The codec reads nothing but the text, so its
/// answer is `ss58_decode` of it: the key's 32 bytes and the version as a
/// number where it succeeds, and its error where it does not.
#[verifier::external_body]
fn decode_ss58(address: &str) -> (decoded: Result<([u8; 32], u16), PublicError>)
    ensures
        match decoded {
            Ok((public, version)) => ss58_decode(address@) == Some((public@, version)),
            Err(_) => ss58_decode(address@) is None,
        },
{
    match Public::from_ss58check_with_version(address) {
        Ok((public, format)) => Ok((public.0, u16::from(format))),
        Err(error) => Err(error),
    }
}

/// The key that an address stands for, given what the codec read out of
/// it: text that does not decode is refused, and so is an address of
/// another network than Polkadot.
pub open spec fn accepted_key(address: Seq<char>, decoded: Option<(Seq<u8>, u16)>) -> Result<
    Seq<u8>,
    ProofErrorView,
> {
    match decoded {
        None => Err(ProofErrorView::AddressDecode { address }),
        Some((public, version)) => if version == POLKADOT_ACCOUNT {
            Ok(public)
        } else {
            Err(ProofErrorView::NetworkMismatch { address, version })
        },
    }
}

/// The key of a Polkadot account address.
pub open spec fn polkadot_key(address: Seq<char>) -> Result<Seq<u8>, ProofErrorView> {
    accepted_key(address, ss58_decode(address))
}

/// What the codec handed back, as the rule above reads it.
pub open spec fn decoded_view(decoded: Result<([u8; 32], u16), PublicError>) -> Option<
    (Seq<u8>, u16),
> {
    match decoded {
        Ok((public, version)) => Some((public@, version)),
        Err(_) => None,
    }
}

/// Checks what the codec read out of `address`, and hands out the key only
/// if the address is one of Polkadot.
pub fn accept_decoded(
    address: &str,
    decoded: Result<([u8; 32], u16), PublicError>,
) -> (key: Result<[u8; 32], ProofError>)
    ensures
        outcome(key) == accepted_key(address@, decoded_view(decoded)),
{
    match decoded {
        Err(_) => Err(ProofError::AddressDecode { address: String::from_str(address) }),
        Ok((public, version)) => {
            if version == POLKADOT_ACCOUNT {
                Ok(public)
            } else {
                Err(ProofError::NetworkMismatch { address: String::from_str(address), version })
            }
        },
    }
}

/// Decodes `address` and checks that it is a Polkadot account address.
pub fn decode_polkadot_address(address: &str) -> (key: Result<[u8; 32], ProofError>)
    ensures
        outcome(key) == polkadot_key(address@),
{
    accept_decoded(address, decode_ss58(address))
}

} // verus!
