//! Extraction and decoding of the enclave's bound public key.
//!
//! The ingest enclave writes the 32-byte compressed encoding of its
//! Ristretto public key into bytes [32, 64) of its 64-byte report data;
//! bytes [0, 32) are reserved for other enclave-defined data and are not
//! consumed here. This offset convention is the one piece of wire format
//! this crate owns.

use vstd::prelude::*;

use crate::error::Error;

verus! {

/// The byte offset of the compressed key inside the report data.
pub const KEY_OFFSET: usize = 32;

/// The byte length of the compressed key.
pub const KEY_LEN: usize = 32;

/// The least report-data length the layout convention requires.
pub const MIN_REPORT_DATA_LEN: usize = 64;

#[verifier::external_type_specification]
#[verifier::external_body]
pub struct ExRistrettoPoint(curve25519_dalek::ristretto::RistrettoPoint);

/// Whether 32 bytes are the canonical compressed encoding of a Ristretto
/// point, as `curve25519_dalek`'s decompression decides it.
pub uninterp spec fn ristretto_ok(bytes: Seq<u8>) -> bool;

/// Relies on `curve25519_dalek::ristretto::CompressedRistretto::from_slice`
/// and `decompress`: decompression of 32 bytes returns a point exactly when
/// they are the canonical encoding of one, a property of the bytes alone.
#[verifier::external_body]
fn decompress_key(bytes: &Vec<u8>) -> (r: Option<curve25519_dalek::ristretto::RistrettoPoint>)
    requires
        bytes@.len() == KEY_LEN,
    ensures
        r is Some <==> ristretto_ok(bytes@),
{
    match curve25519_dalek::ristretto::CompressedRistretto::from_slice(bytes.as_slice()) {
        Ok(compressed) => compressed.decompress(),
        Err(_) => None,
    }
}

/// A public key extracted from validated attestation evidence.
///
/// The decompressed point always came from the canonical 32-byte encoding
/// held beside it, taken from the key window of a report data field.
pub struct AttestedKey {
    point: curve25519_dalek::ristretto::RistrettoPoint,
    compressed: Vec<u8>,
}

impl View for AttestedKey {
    type V = Seq<u8>;

    closed spec fn view(&self) -> Seq<u8> {
        self.compressed@
    }
}

impl AttestedKey {
    /// The key's 32 bytes are a canonical Ristretto point encoding.
    pub closed spec fn wf(&self) -> bool {
        self@.len() == KEY_LEN && ristretto_ok(self@)
    }

    /// The decompressed public key.
    pub fn point(&self) -> &curve25519_dalek::ristretto::RistrettoPoint {
        &self.point
    }

    /// The canonical compressed encoding the key was decoded from.
    pub fn compressed_bytes(&self) -> (r: &Vec<u8>)
        ensures
            r@ == self@,
    {
        &self.compressed
    }
}

/// The slice of a report data field that holds the compressed key: bytes
/// [32, 64).
pub open spec fn key_window(report_data: Seq<u8>) -> Seq<u8> {
    report_data.subrange(KEY_OFFSET as int, MIN_REPORT_DATA_LEN as int)
}

/// What extraction returns for a report data field: the decoded key window
/// when the field is long enough and the window is a canonical point
/// encoding, and otherwise the error naming what failed.
pub open spec fn spec_extract(report_data: Seq<u8>) -> Result<Seq<u8>, Error> {
    if report_data.len() < MIN_REPORT_DATA_LEN {
        Err(Error::Encoding)
    } else if !ristretto_ok(key_window(report_data)) {
        Err(Error::Key)
    } else {
        Ok(key_window(report_data))
    }
}

/// The result of an extraction, reduced to its mathematical content: the
/// compressed bytes of the key on success, the error otherwise.
pub open spec fn extraction_view(r: Result<AttestedKey, Error>) -> Result<Seq<u8>, Error> {
    match r {
        Ok(key) => Ok(key@),
        Err(e) => Err(e),
    }
}

/// Read the key window out of a report data field and decode it.
///
/// Returns `Error::Encoding` when fewer than 64 bytes are given, and
/// `Error::Key` when the window is not a canonical point encoding; on
/// success the returned key's encoding is exactly the window.
pub fn extract_ingest_pubkey(report_data: &Vec<u8>) -> (r: Result<AttestedKey, Error>)
    ensures
        extraction_view(r) == spec_extract(report_data@),
        r matches Ok(key) ==> key.wf(),
{
    if report_data.len() < MIN_REPORT_DATA_LEN {
        return Err(Error::Encoding);
    }
    let mut window: Vec<u8> = Vec::new();
    let mut i: usize = KEY_OFFSET;
    while i < MIN_REPORT_DATA_LEN
        invariant
            KEY_OFFSET <= i <= MIN_REPORT_DATA_LEN,
            report_data@.len() >= MIN_REPORT_DATA_LEN,
            window@ == report_data@.subrange(KEY_OFFSET as int, i as int),
        decreases MIN_REPORT_DATA_LEN - i,
    {
        window.push(report_data[i]);
        proof {
            assert(window@ =~= report_data@.subrange(KEY_OFFSET as int, i + 1));
        }
        i = i + 1;
    }
    proof {
        assert(window@ == key_window(report_data@));
    }
    match decompress_key(&window) {
        Some(point) => Ok(AttestedKey { point, compressed: window }),
        None => Err(Error::Key),
    }
}

} // verus!
