//! Trusted enclave identities and their matching semantics.
//!
//! An identity describes an enclave that is acceptable as genuine, either
//! by its exact MRENCLAVE measurement or by its signer: the MRSIGNER key
//! hash and product id must be exactly the trusted ones, and the security
//! version must be at least the trusted minimum.

use vstd::prelude::*;

use crate::report::{
    isv_product_id_of, isv_svn_of, mr_enclave_of, mr_signer_of, range_eq_32, read_le_u16,
    ISV_PRODUCT_ID_OFFSET, ISV_SVN_OFFSET, MR_ENCLAVE_OFFSET, MR_SIGNER_OFFSET, REPORT_BODY_LEN,
};

verus! {

/// A trusted enclave identity.
#[derive(Clone, Debug)]
pub enum IngestIdentity {
    /// Trust an exact enclave measurement.
    MrEnclave {
        /// The MRENCLAVE measurement of the trusted enclave.
        measurement: [u8; 32],
    },
    /// Trust any enclave of a product signed by a key, at or above a
    /// minimum security version.
    MrSigner {
        /// The MRSIGNER hash of the signer's public key.
        key_hash: [u8; 32],
        /// The ISV product id the enclave must report.
        product_id: u16,
        /// The least ISV security version number that is trusted.
        minimum_svn: u16,
    },
}

/// The mathematical model of a trusted identity.
pub enum IdentityView {
    MrEnclave { measurement: Seq<u8> },
    MrSigner { key_hash: Seq<u8>, product_id: u16, minimum_svn: u16 },
}

impl View for IngestIdentity {
    type V = IdentityView;

    open spec fn view(&self) -> IdentityView {
        match self {
            IngestIdentity::MrEnclave { measurement } => IdentityView::MrEnclave {
                measurement: measurement@,
            },
            IngestIdentity::MrSigner { key_hash, product_id, minimum_svn } => {
                IdentityView::MrSigner {
                    key_hash: key_hash@,
                    product_id: *product_id,
                    minimum_svn: *minimum_svn,
                }
            },
        }
    }
}

/// Whether a report body with raw bytes `raw` matches the identity `id`.
pub open spec fn identity_matches(id: IdentityView, raw: Seq<u8>) -> bool {
    match id {
        IdentityView::MrEnclave { measurement } => measurement == mr_enclave_of(raw),
        IdentityView::MrSigner { key_hash, product_id, minimum_svn } => {
            &&& key_hash == mr_signer_of(raw)
            &&& product_id == isv_product_id_of(raw)
            &&& isv_svn_of(raw) >= minimum_svn
        },
    }
}

/// Decide whether a report body matches one identity.
pub(crate) fn matches_identity(id: &IngestIdentity, raw: &Vec<u8>) -> (r: bool)
    requires
        raw@.len() >= REPORT_BODY_LEN,
    ensures
        r == identity_matches(id@, raw@),
{
    match id {
        IngestIdentity::MrEnclave { measurement } => {
            range_eq_32(measurement, raw, MR_ENCLAVE_OFFSET)
        },
        IngestIdentity::MrSigner { key_hash, product_id, minimum_svn } => {
            range_eq_32(key_hash, raw, MR_SIGNER_OFFSET) && read_le_u16(
                raw,
                ISV_PRODUCT_ID_OFFSET,
            ) == *product_id && read_le_u16(raw, ISV_SVN_OFFSET) >= *minimum_svn
        },
    }
}

} // verus!
