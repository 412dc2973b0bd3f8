use polkaregistry::commands::verify;
use polkaregistry::ProofError;

#[test]
fn verify_is_not_implemented() {
    assert_eq!(verify(), Err(ProofError::Unimplemented { command: String::from("verify") }));
}

#[test]
fn errors_describe_the_input_at_fault() {
    assert_eq!(
        ProofError::AddressDecode { address: String::from("abc") }.describe(),
        "address abc is not a valid SS58 address"
    );
    assert_eq!(
        ProofError::NetworkMismatch { address: String::from("HNZ"), version: 2 }.describe(),
        "address HNZ carries network version 2, which is not that of Polkadot"
    );
    assert_eq!(
        ProofError::NetworkMismatch { address: String::from("x"), version: 16383 }.describe(),
        "address x carries network version 16383, which is not that of Polkadot"
    );
    assert_eq!(
        ProofError::KeyNotFound { address: String::from("15o") }.describe(),
        "the key store holds no key for address 15o"
    );
    assert_eq!(ProofError::KeyStoreUnavailable.describe(), "the key store is unavailable");
    assert_eq!(verify().unwrap_err().describe(), "command verify is not implemented");
}
