//! The error taxonomy for evidence validation.

use vstd::prelude::*;

verus! {

/// An error that can occur when validating ingest attestation evidence.
///
/// Every failure is a definitive rejection of the given evidence for the
/// given verifier configuration: no case is retryable at this layer, and
/// each case names the stage that rejected the evidence, so that callers
/// can tell "not trustworthy" from "malformed".
#[derive(Clone, Copy, Debug, PartialEq, Eq, Structural)]
pub enum Error {
    /// The report data is shorter than the 64 bytes that the key-extraction
    /// layout convention requires.
    Encoding,
    /// Bytes [32, 64) of the report data are not the canonical encoding of a
    /// Ristretto point.
    Key,
    /// The evidence blob could not be parsed as an enclave report body.
    VerificationParse,
    /// The report body matched none of the configured trusted identities.
    Verifier,
}

} // verus!
