//! Commands that are reserved but do nothing yet.

use vstd::prelude::*;
use crate::error::{ProofError, ProofErrorView};

verus! {

/// Checking a published proof. The command is reserved: it fails with
/// `Unimplemented`, naming itself, and never reports a proof as good.
pub fn verify() -> (done: Result<(), ProofError>)
    ensures
        done matches Err(error) && error@ == (ProofErrorView::Unimplemented { command: "verify"@ }),
{
    Err(ProofError::Unimplemented { command: String::from_str("verify") })
}

} // verus!
