//! The evidence verifier and its validation operation.

use vstd::prelude::*;

use crate::error::Error;
use crate::identity::{identity_matches, matches_identity, IdentityView, IngestIdentity};
use crate::key::{
    extract_ingest_pubkey, extraction_view, key_window, ristretto_ok, spec_extract, AttestedKey,
    KEY_OFFSET,
};
use crate::report::{
    copy_range, isv_product_id_of, isv_svn_of, mr_enclave_of, mr_signer_of, report_data_of,
    RemoteReport, REPORT_BODY_LEN, REPORT_DATA_OFFSET,
};

verus! {

/// A verifier of ingest enclave attestation evidence.
///
/// It holds a configured set of trusted identities; evidence is accepted
/// when its report body matches any one of them. The verifier is immutable
/// after construction and each validation call is stateless.
#[derive(Clone, Debug)]
pub struct IngestAttestationEvidenceVerifier {
    identities: Vec<IngestIdentity>,
}

impl View for IngestAttestationEvidenceVerifier {
    type V = Seq<IdentityView>;

    closed spec fn view(&self) -> Seq<IdentityView> {
        self.identities@.map_values(|id: IngestIdentity| id@)
    }
}

/// Whether any identity of `ids` matches a report body with raw bytes
/// `raw`. The order of the identities is irrelevant and duplicates are
/// harmless: any one match suffices.
pub open spec fn accepts(ids: Seq<IdentityView>, raw: Seq<u8>) -> bool {
    exists|i: int| 0 <= i < ids.len() && identity_matches(ids[i], raw)
}

/// What validation returns for an identity set and an evidence blob:
/// the parse error when the blob is shorter than a report body, the trust
/// error when no identity matches, and otherwise the extraction of the
/// body's report data field.
pub open spec fn spec_validate(ids: Seq<IdentityView>, evidence: Seq<u8>) -> Result<
    Seq<u8>,
    Error,
> {
    if evidence.len() < REPORT_BODY_LEN {
        Err(Error::VerificationParse)
    } else if !accepts(ids, evidence) {
        Err(Error::Verifier)
    } else {
        spec_extract(report_data_of(evidence))
    }
}

impl Default for IngestAttestationEvidenceVerifier {
    /// An empty verifier: a placeholder prior to configuration, which
    /// rejects every piece of evidence for want of a matching identity.
    fn default() -> (r: Self)
        ensures
            r@ == Seq::<IdentityView>::empty(),
    {
        IngestAttestationEvidenceVerifier { identities: Vec::new() }
    }
}

impl From<Vec<IngestIdentity>> for IngestAttestationEvidenceVerifier {
    /// Build a verifier owning the given trusted identities.
    fn from(identities: Vec<IngestIdentity>) -> (r: Self)
        ensures
            r@ == identities@.map_values(|id: IngestIdentity| id@),
    {
        IngestAttestationEvidenceVerifier { identities }
    }
}

impl vstd::std_specs::convert::FromSpecImpl<Vec<IngestIdentity>>
    for IngestAttestationEvidenceVerifier {
    open spec fn obeys_from_spec() -> bool {
        true
    }

    closed spec fn from_spec(identities: Vec<IngestIdentity>) -> Self {
        IngestAttestationEvidenceVerifier { identities }
    }
}

impl IngestAttestationEvidenceVerifier {
    /// Build a verifier owning the given trusted identities. No validation
    /// is performed at construction time: an empty set is constructible,
    /// but every subsequent validation will fail identity matching.
    pub fn new(identities: Vec<IngestIdentity>) -> (r: Self)
        ensures
            r@ == identities@.map_values(|id: IngestIdentity| id@),
    {
        IngestAttestationEvidenceVerifier { identities }
    }

    /// Whether the report body at the front of `raw` matches any
    /// configured identity.
    fn matches_any(&self, raw: &Vec<u8>) -> (r: bool)
        requires
            raw@.len() >= REPORT_BODY_LEN,
        ensures
            r == accepts(self@, raw@),
    {
        let mut i: usize = 0;
        while i < self.identities.len()
            invariant
                0 <= i <= self.identities.len(),
                raw@.len() >= REPORT_BODY_LEN,
                forall|j: int| 0 <= j < i ==> !identity_matches(self@[j], raw@),
            decreases self.identities.len() - i,
        {
            if matches_identity(&self.identities[i], raw) {
                proof {
                    assert(identity_matches(self@[i as int], raw@));
                }
                return true;
            }
            i = i + 1;
        }
        false
    }

    /// Validate remote ingest attestation evidence and extract the public
    /// key from its report data.
    ///
    /// The returned key is guaranteed to have been bound, at bytes
    /// [32, 64) of the report data, into evidence whose report body
    /// matched a configured trusted identity; the outcome is a function
    /// of the identity set and the evidence alone.
    pub fn validate_ingest_attestation_evidence(&self, remote_report: &RemoteReport) -> (r:
        Result<AttestedKey, Error>)
        ensures
            extraction_view(r) == spec_validate(self@, remote_report@),
            r matches Ok(key) ==> key.wf(),
    {
        let bytes = remote_report.bytes();
        if bytes.len() < REPORT_BODY_LEN {
            return Err(Error::VerificationParse);
        }
        if !self.matches_any(bytes) {
            return Err(Error::Verifier);
        }
        let report_data = copy_range(bytes, REPORT_DATA_OFFSET, REPORT_DATA_OFFSET + 64);
        extract_ingest_pubkey(&report_data)
    }
}

/// Acceptance: for evidence long enough to hold a report body, whose body
/// matches a configured identity, and whose key window — bytes [32, 64) of
/// the report data — is a canonical point encoding, validation succeeds
/// and returns exactly that window's key.
pub proof fn lemma_acceptance(ids: Seq<IdentityView>, evidence: Seq<u8>)
    requires
        evidence.len() >= REPORT_BODY_LEN,
        accepts(ids, evidence),
        ristretto_ok(key_window(report_data_of(evidence))),
    ensures
        spec_validate(ids, evidence) == Ok::<Seq<u8>, Error>(
            key_window(report_data_of(evidence)),
        ),
{
}

/// A key is returned only for evidence whose report body matched one of
/// the configured trusted identities: success never comes any other way.
pub proof fn lemma_success_implies_trusted(ids: Seq<IdentityView>, evidence: Seq<u8>)
    ensures
        spec_validate(ids, evidence) is Ok ==> accepts(ids, evidence),
        spec_validate(ids, evidence) is Ok ==> spec_validate(ids, evidence) == Ok::<
            Seq<u8>,
            Error,
        >(key_window(report_data_of(evidence))),
{
}

/// Identity rejection: a verifier none of whose identities matches the
/// evidence — an empty identity set in particular — never succeeds, and on
/// evidence long enough to hold a report body it reports the trust error.
pub proof fn lemma_unmatched_identities_rejected(ids: Seq<IdentityView>, evidence: Seq<u8>)
    requires
        forall|i: int| 0 <= i < ids.len() ==> !identity_matches(ids[i], evidence),
    ensures
        !(spec_validate(ids, evidence) is Ok),
        evidence.len() >= REPORT_BODY_LEN ==> spec_validate(ids, evidence) == Err::<
            Seq<u8>,
            Error,
        >(Error::Verifier),
{
}

/// Malformed key bytes: when the evidence passes identity matching but its
/// key window is not a canonical point encoding, validation reports the
/// key error.
pub proof fn lemma_bad_key_window_rejected(ids: Seq<IdentityView>, evidence: Seq<u8>)
    requires
        evidence.len() >= REPORT_BODY_LEN,
        accepts(ids, evidence),
        !ristretto_ok(key_window(report_data_of(evidence))),
    ensures
        spec_validate(ids, evidence) == Err::<Seq<u8>, Error>(Error::Key),
{
}

/// Only the key window decides the key: two evidence blobs of equal
/// length that agree everywhere except possibly in bytes [0, 32) of the
/// report data field validate identically under every identity set.
pub proof fn lemma_key_window_alone_decides(ids: Seq<IdentityView>, e1: Seq<u8>, e2: Seq<u8>)
    requires
        e1.len() == e2.len(),
        forall|i: int|
            0 <= i < e1.len() && !(REPORT_DATA_OFFSET <= i < REPORT_DATA_OFFSET + KEY_OFFSET)
                ==> e1[i] == e2[i],
    ensures
        spec_validate(ids, e1) == spec_validate(ids, e2),
{
    if e1.len() >= REPORT_BODY_LEN {
        assert(mr_enclave_of(e1) =~= mr_enclave_of(e2));
        assert(mr_signer_of(e1) =~= mr_signer_of(e2));
        assert(isv_product_id_of(e1) == isv_product_id_of(e2));
        assert(isv_svn_of(e1) == isv_svn_of(e2));
        assert(key_window(report_data_of(e1)) =~= key_window(report_data_of(e2)));
        assert forall|i: int| 0 <= i < ids.len() implies (identity_matches(ids[i], e1)
            <==> identity_matches(ids[i], e2)) by {
            assert(mr_enclave_of(e1) == mr_enclave_of(e2));
            assert(mr_signer_of(e1) == mr_signer_of(e2));
        }
        if accepts(ids, e1) {
            let i = choose|i: int| 0 <= i < ids.len() && identity_matches(ids[i], e1);
            assert(identity_matches(ids[i], e2));
        }
        if accepts(ids, e2) {
            let i = choose|i: int| 0 <= i < ids.len() && identity_matches(ids[i], e2);
            assert(identity_matches(ids[i], e1));
        }
    }
}

/// Determinism: the outcome of validation is a function of the identity
/// set and the evidence alone, so repeating a call with the same verifier
/// and the same evidence yields the identical result — no state
/// accumulates across calls.
pub proof fn lemma_validate_deterministic(
    ids1: Seq<IdentityView>,
    ids2: Seq<IdentityView>,
    e1: Seq<u8>,
    e2: Seq<u8>,
)
    requires
        ids1 == ids2,
        e1 == e2,
    ensures
        spec_validate(ids1, e1) == spec_validate(ids2, e2),
{
}

/// Construction equivalence: two identity sets with the same members —
/// whatever their order and however often a member is repeated — validate
/// every piece of evidence identically. A verifier built from two
/// identities accepts evidence matching either one, in either
/// construction order.
pub proof fn lemma_identity_order_irrelevant(
    ids1: Seq<IdentityView>,
    ids2: Seq<IdentityView>,
    evidence: Seq<u8>,
)
    requires
        forall|id: IdentityView| ids1.contains(id) <==> ids2.contains(id),
    ensures
        spec_validate(ids1, evidence) == spec_validate(ids2, evidence),
{
    if accepts(ids1, evidence) {
        let i = choose|i: int| 0 <= i < ids1.len() && identity_matches(ids1[i], evidence);
        assert(ids1.contains(ids1[i]));
        let j = choose|j: int| 0 <= j < ids2.len() && ids2[j] == ids1[i];
        assert(identity_matches(ids2[j], evidence));
    }
    if accepts(ids2, evidence) {
        let i = choose|i: int| 0 <= i < ids2.len() && identity_matches(ids2[i], evidence);
        assert(ids2.contains(ids2[i]));
        let j = choose|j: int| 0 <= j < ids1.len() && ids1[j] == ids2[i];
        assert(identity_matches(ids1[j], evidence));
    }
}

} // verus!
