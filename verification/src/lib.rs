//! Proofs of account ownership for Polkadot: a signed, human-readable
//! statement that binds an identity on some platform to an address.

pub mod address;
pub mod commands;
pub mod decimal;
pub mod eeid;
pub mod error;
pub mod github;
pub mod hex;
pub mod matrix;
pub mod signing;
pub mod statement;
pub mod twitter;
pub mod website;

pub use eeid::EEIDProof;
pub use error::ProofError;
pub use github::GistProof;
pub use matrix::MatrixProof;
pub use signing::SR25519;
pub use statement::Platform;
pub use twitter::TweetProof;
pub use website::WebsiteProof;
