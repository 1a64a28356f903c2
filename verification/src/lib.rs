//! Validation of remote attestation evidence produced by an ingest enclave.
//!
//! A configured [`IngestAttestationEvidenceVerifier`] checks an opaque
//! evidence blob against a set of trusted enclave identities and, on success,
//! decodes the Ristretto public key that the enclave bound into bytes
//! [32, 64) of its report data.

pub mod error;
pub mod identity;
pub mod key;
pub mod report;
pub mod validate;

pub use error::Error;
pub use identity::{IdentityView, IngestIdentity};
pub use key::{extract_ingest_pubkey, AttestedKey};
pub use report::RemoteReport;
pub use validate::IngestAttestationEvidenceVerifier;
