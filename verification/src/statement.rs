//! The statement that a claim is published as, and the signed message made
//! of it.

use vstd::prelude::*;
use vstd::utf8::encode_utf8;
use crate::hex::{
    encode_prefixed_hex,
    hex_text,
    lemma_hex_text_injective,
    lemma_hex_text_len,
    lemma_prefixed_hex_injective,
    prefixed_hex,
};

verus! {

/// Where the claimed identity lives.
#[derive(Debug, Clone, Copy, PartialEq, Eq, Structural)]
pub enum Platform {
    Twitter,
    Github,
    Eeid,
    Matrix,
    Website,
}

/// An identity claim: the name that its owner goes by on a platform (a user
/// name, a legal name or a domain), and the address said to be theirs.
/// Nothing is asked of the texts: they go into the statement as they are.
pub struct Claim {
    pub platform: Platform,
    pub identity: Seq<char>,
    pub address: Seq<char>,
}

/// The platform as the statement spells it.
pub open spec fn platform_name(platform: Platform) -> Seq<char> {
    match platform {
        Platform::Twitter => "Twitter"@,
        Platform::Github => "GitHub"@,
        Platform::Eeid => "EEID"@,
        Platform::Matrix => "Matrix"@,
        Platform::Website => "Website"@,
    }
}

/// How the statement ends. On GitHub it goes on to name the gist that
/// carries the proof, by its owner.
pub open spec fn statement_ending(claim: Claim) -> Seq<char> {
    match claim.platform {
        Platform::Github => ", with the Gist "@ + claim.identity + "."@,
        _ => "."@,
    }
}

/// The sentence that states `claim`. Those who check a proof compare it
/// character by character, so the wording is fixed.
pub open spec fn statement_text(claim: Claim) -> Seq<char> {
    "Polkaregistry proof: I am "@ + claim.identity + " on "@ + platform_name(claim.platform)
        + " and own address "@ + claim.address + " on Polkadot"@ + statement_ending(claim)
}

/// The bytes that are signed: the statement in UTF-8.
pub open spec fn statement_bytes(claim: Claim) -> Seq<u8> {
    encode_utf8(statement_text(claim))
}

/// A statement followed by one space and the signature in hexadecimal
/// behind `0x`. No line end follows.
pub open spec fn signed_message_text(statement: Seq<char>, signature: Seq<u8>) -> Seq<char> {
    statement + " "@ + prefixed_hex(signature)
}

fn platform_label(platform: Platform) -> (label: &'static str)
    ensures
        label@ == platform_name(platform),
{
    match platform {
        Platform::Twitter => "Twitter",
        Platform::Github => "GitHub",
        Platform::Eeid => "EEID",
        Platform::Matrix => "Matrix",
        Platform::Website => "Website",
    }
}

/// Writes the statement of the claim that `identity` owns `address`.
pub fn build_statement(platform: Platform, identity: &str, address: &str) -> (text: String)
    ensures
        text@ == statement_text(Claim { platform, identity: identity@, address: address@ }),
{
    let mut text = String::from_str("Polkaregistry proof: I am ");
    text.append(identity);
    text.append(" on ");
    text.append(platform_label(platform));
    text.append(" and own address ");
    text.append(address);
    text.append(" on Polkadot");
    match platform {
        Platform::Github => {
            text.append(", with the Gist ");
            text.append(identity);
            text.append(".");
        },
        _ => {
            text.append(".");
        },
    }
    text
}

/// Joins a statement and the signature over it into the message to publish.
pub fn build_signed_message(statement: &str, signature: &[u8]) -> (message: String)
    ensures
        message@ == signed_message_text(statement@, signature@),
{
    let mut message = String::from_str(statement);
    message.append(" ");
    let hex = encode_prefixed_hex(signature);
    message.append(hex.as_str());
    message
}

/// Building a statement is a function of the claim's fields: whenever two
/// claims agree in platform, identity and address, the statements built of
/// them are the same text and the same bytes.
pub proof fn lemma_statement_deterministic(a: Claim, b: Claim, first: String, second: String)
    requires
        a.platform == b.platform,
        a.identity == b.identity,
        a.address == b.address,
        first@ == statement_text(a),
        second@ == statement_text(b),
    ensures
        first@ == second@,
        encode_utf8(first@) == encode_utf8(second@),
        encode_utf8(first@) == statement_bytes(a),
{
}

/// Two claims with the same statement give the same signed message when
/// the signatures are the same, and different messages when they differ:
/// apart from the statement, nothing but the signature goes into a message.
pub proof fn lemma_same_statement_same_message(
    a: Claim,
    b: Claim,
    signature_a: Seq<u8>,
    signature_b: Seq<u8>,
)
    requires
        statement_text(a) == statement_text(b),
    ensures
        signed_message_text(statement_text(a), signature_a) == signed_message_text(
            statement_text(b),
            signature_b,
        ) <==> signature_a == signature_b,
{
    let statement = statement_text(a);
    let left = signed_message_text(statement, signature_a);
    let right = signed_message_text(statement, signature_b);
    if left == right {
        let start = (statement + " "@).len() as int;
        assert(prefixed_hex(signature_a) =~= left.subrange(start, left.len() as int));
        assert(prefixed_hex(signature_b) =~= right.subrange(start, right.len() as int));
        lemma_prefixed_hex_injective(signature_a, signature_b);
    }
}

/// A signed message is its statement, one space, `0x`, and two digits for
/// each byte of the signature, with nothing after them.
pub proof fn lemma_signed_message_shape(statement: Seq<char>, signature: Seq<u8>)
    ensures
        ({
            let message = signed_message_text(statement, signature);
            let n = statement.len() as int;
            &&& message.len() == n + 3 + 2 * signature.len()
            &&& message.subrange(0, n) == statement
            &&& message[n] == ' '
            &&& message[n + 1] == '0'
            &&& message[n + 2] == 'x'
            &&& message.subrange(n + 3, message.len() as int) == hex_text(signature)
        }),
{
    reveal_strlit(" ");
    reveal_strlit("0x");
    lemma_hex_text_len(signature);
    let message = signed_message_text(statement, signature);
    let n = statement.len() as int;
    assert(message.subrange(0, n) =~= statement);
    assert(message.subrange(n + 3, message.len() as int) =~= hex_text(signature));
}

/// A signed message can be taken apart again: of signatures of one length,
/// only one, and only one statement, gives a message.
pub proof fn lemma_signed_message_unique(
    statement_a: Seq<char>,
    signature_a: Seq<u8>,
    statement_b: Seq<char>,
    signature_b: Seq<u8>,
)
    requires
        signature_a.len() == signature_b.len(),
        signed_message_text(statement_a, signature_a) == signed_message_text(
            statement_b,
            signature_b,
        ),
    ensures
        statement_a == statement_b,
        signature_a == signature_b,
{
    lemma_signed_message_shape(statement_a, signature_a);
    lemma_signed_message_shape(statement_b, signature_b);
    lemma_hex_text_injective(signature_a, signature_b);
}

} // verus!
