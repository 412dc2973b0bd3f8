use polkaregistry::statement::{build_signed_message, build_statement};
use polkaregistry::{EEIDProof, GistProof, MatrixProof, Platform, TweetProof, WebsiteProof};

const ALICE: &str = "15oF4uVJwmo4TdGW7VfQxNLavjCXviqxT9S1MgbjMNHr6Sp5";

#[test]
fn twitter_payload_follows_the_template() {
    let proof = TweetProof { username: String::from("alice"), address: String::from(ALICE) };
    assert_eq!(
        proof.payload(),
        "Polkaregistry proof: I am alice on Twitter and own address 15oF4uVJwmo4TdGW7VfQxNLavjCXviqxT9S1MgbjMNHr6Sp5 on Polkadot."
    );
}

#[test]
fn matrix_payload_follows_the_template() {
    let proof =
        MatrixProof { username: String::from("@alice:matrix.org"), address: String::from(ALICE) };
    assert_eq!(
        proof.payload(),
        "Polkaregistry proof: I am @alice:matrix.org on Matrix and own address 15oF4uVJwmo4TdGW7VfQxNLavjCXviqxT9S1MgbjMNHr6Sp5 on Polkadot."
    );
}

#[test]
fn github_payload_names_the_gist() {
    let proof = GistProof { username: String::from("alice"), address: String::from(ALICE) };
    assert_eq!(
        proof.payload(),
        "Polkaregistry proof: I am alice on GitHub and own address 15oF4uVJwmo4TdGW7VfQxNLavjCXviqxT9S1MgbjMNHr6Sp5 on Polkadot, with the Gist alice."
    );
}

#[test]
fn eeid_payload_holds_the_legal_name() {
    let proof = EEIDProof { legal_name: String::from("Alice Liddell"), address: String::from(ALICE) };
    assert_eq!(
        proof.payload(),
        "Polkaregistry proof: I am Alice Liddell on EEID and own address 15oF4uVJwmo4TdGW7VfQxNLavjCXviqxT9S1MgbjMNHr6Sp5 on Polkadot."
    );
}

#[test]
fn website_payload_holds_the_domain() {
    let proof = WebsiteProof { domain: String::from("example.org"), address: String::from(ALICE) };
    assert_eq!(
        proof.payload(),
        "Polkaregistry proof: I am example.org on Website and own address 15oF4uVJwmo4TdGW7VfQxNLavjCXviqxT9S1MgbjMNHr6Sp5 on Polkadot."
    );
}

#[test]
fn payload_is_the_statement_of_its_platform() {
    let proof = MatrixProof { username: String::from("bob"), address: String::from("xyz") };
    assert_eq!(proof.payload(), build_statement(Platform::Matrix, "bob", "xyz"));
    let proof = TweetProof { username: String::from("bob"), address: String::from("xyz") };
    assert_eq!(proof.payload(), build_statement(Platform::Twitter, "bob", "xyz"));
    assert_ne!(
        build_statement(Platform::Twitter, "bob", "xyz"),
        build_statement(Platform::Matrix, "bob", "xyz")
    );
}

#[test]
fn statement_is_the_same_on_every_call() {
    let platforms = [
        Platform::Twitter,
        Platform::Github,
        Platform::Eeid,
        Platform::Matrix,
        Platform::Website,
    ];
    for platform in platforms {
        let first = build_statement(platform, "alice", ALICE);
        let second = build_statement(platform, &String::from("alice"), &String::from(ALICE));
        assert_eq!(first, second);
        assert_eq!(first.as_bytes(), second.as_bytes());
    }
}

#[test]
fn texts_go_into_the_statement_as_they_are() {
    assert_eq!(
        build_statement(Platform::Twitter, "", ""),
        "Polkaregistry proof: I am  on Twitter and own address  on Polkadot."
    );
    assert_eq!(
        build_statement(Platform::Matrix, "Zoë {} \n", "not an address"),
        "Polkaregistry proof: I am Zoë {} \n on Matrix and own address not an address on Polkadot."
    );
    assert_eq!(
        build_statement(Platform::Github, "a b", "c"),
        "Polkaregistry proof: I am a b on GitHub and own address c on Polkadot, with the Gist a b."
    );
}

#[test]
fn signed_message_joins_statement_and_signature() {
    assert_eq!(build_signed_message("I am alice.", &[0x00, 0x1f, 0xa0, 0xff]), "I am alice. 0x001fa0ff");
    assert_eq!(build_signed_message("", &[]), " 0x");
}

#[test]
fn distinct_claims_with_one_statement_give_one_message() {
    let first = build_statement(Platform::Matrix, "a on Matrix and own address b", "c");
    let second = build_statement(Platform::Matrix, "a", "b on Matrix and own address c");
    assert_eq!(first, second);
    let signature = [7u8; 64];
    assert_eq!(build_signed_message(&first, &signature), build_signed_message(&second, &signature));
    let other = [8u8; 64];
    assert_ne!(build_signed_message(&first, &signature), build_signed_message(&second, &other));
}
