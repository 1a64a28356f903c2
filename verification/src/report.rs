//! The attestation evidence blob and the report-body layout.
//!
//! Evidence arrives as an opaque byte blob. Its structured form is an
//! enclave report body: a fixed 384-byte layout at the front of the blob,
//! with each field at a fixed offset. The spec functions below name the
//! fields that validation consumes, each as a function of the raw bytes;
//! the executable readers beside them are proved to return exactly those
//! fields.

use vstd::prelude::*;

verus! {

/// The number of bytes of an enclave report body.
pub const REPORT_BODY_LEN: usize = 384;

/// The byte offset of the MRENCLAVE measurement in a report body.
pub const MR_ENCLAVE_OFFSET: usize = 64;

/// The byte offset of the MRSIGNER key hash in a report body.
pub const MR_SIGNER_OFFSET: usize = 128;

/// The byte offset of the little-endian 16-bit ISV product id.
pub const ISV_PRODUCT_ID_OFFSET: usize = 256;

/// The byte offset of the little-endian 16-bit ISV security version.
pub const ISV_SVN_OFFSET: usize = 258;

/// The byte offset of the 64-byte report data field.
pub const REPORT_DATA_OFFSET: usize = 320;

/// Remote attestation evidence as received from the enclave: an opaque
/// byte blob, not interpreted except through validation.
#[derive(Clone, Debug)]
pub struct RemoteReport {
    bytes: Vec<u8>,
}

impl View for RemoteReport {
    type V = Seq<u8>;

    closed spec fn view(&self) -> Seq<u8> {
        self.bytes@
    }
}

impl RemoteReport {
    /// Wrap an evidence blob obtained out-of-band.
    pub fn new(bytes: Vec<u8>) -> (r: Self)
        ensures
            r@ == bytes@,
    {
        RemoteReport { bytes }
    }

    /// The raw evidence bytes.
    pub fn bytes(&self) -> (r: &Vec<u8>)
        ensures
            r@ == self@,
    {
        &self.bytes
    }
}

/// The MRENCLAVE measurement of a report body: bytes [64, 96) of the raw
/// layout.
pub open spec fn mr_enclave_of(raw: Seq<u8>) -> Seq<u8> {
    raw.subrange(MR_ENCLAVE_OFFSET as int, MR_ENCLAVE_OFFSET + 32)
}

/// The MRSIGNER key hash of a report body: bytes [128, 160) of the raw
/// layout.
pub open spec fn mr_signer_of(raw: Seq<u8>) -> Seq<u8> {
    raw.subrange(MR_SIGNER_OFFSET as int, MR_SIGNER_OFFSET + 32)
}

/// The ISV product id of a report body: a little-endian 16-bit value at
/// bytes [256, 258) of the raw layout.
pub open spec fn isv_product_id_of(raw: Seq<u8>) -> u16 {
    (raw[ISV_PRODUCT_ID_OFFSET as int] + 256 * raw[ISV_PRODUCT_ID_OFFSET + 1]) as u16
}

/// The ISV security version number of a report body: a little-endian
/// 16-bit value at bytes [258, 260) of the raw layout.
pub open spec fn isv_svn_of(raw: Seq<u8>) -> u16 {
    (raw[ISV_SVN_OFFSET as int] + 256 * raw[ISV_SVN_OFFSET + 1]) as u16
}

/// The report data of a report body: the 64-byte field at bytes
/// [320, 384) of the raw layout, which the enclave fills with bound
/// application data.
pub open spec fn report_data_of(raw: Seq<u8>) -> Seq<u8> {
    raw.subrange(REPORT_DATA_OFFSET as int, REPORT_DATA_OFFSET + 64)
}

/// Copy the byte range [start, end) out of a buffer.
pub(crate) fn copy_range(bytes: &Vec<u8>, start: usize, end: usize) -> (r: Vec<u8>)
    requires
        start <= end <= bytes@.len(),
    ensures
        r@ == bytes@.subrange(start as int, end as int),
{
    let mut out: Vec<u8> = Vec::new();
    let mut i: usize = start;
    while i < end
        invariant
            start <= i <= end <= bytes@.len(),
            out@ == bytes@.subrange(start as int, i as int),
        decreases end - i,
    {
        out.push(bytes[i]);
        proof {
            assert(out@ =~= bytes@.subrange(start as int, i + 1));
        }
        i = i + 1;
    }
    out
}

/// Whether the 32 bytes at `offset` in `raw` equal `expected`.
pub(crate) fn range_eq_32(expected: &[u8; 32], raw: &Vec<u8>, offset: usize) -> (r: bool)
    requires
        offset + 32 <= raw@.len(),
    ensures
        r == (expected@ == raw@.subrange(offset as int, offset + 32)),
{
    let n: usize = raw.len();
    let mut i: usize = 0;
    while i < 32
        invariant
            0 <= i <= 32,
            offset + 32 <= n == raw@.len(),
            forall|j: int| 0 <= j < i ==> expected@[j] == raw@[offset + j],
        decreases 32 - i,
    {
        if expected[i] != raw[offset + i] {
            proof {
                assert(expected@[i as int] != raw@.subrange(offset as int, offset + 32)[i as int]);
            }
            return false;
        }
        i = i + 1;
    }
    proof {
        assert(expected@ =~= raw@.subrange(offset as int, offset + 32));
    }
    true
}

/// Read the little-endian 16-bit value at `offset` in `raw`.
pub(crate) fn read_le_u16(raw: &Vec<u8>, offset: usize) -> (r: u16)
    requires
        offset + 2 <= raw@.len(),
    ensures
        r == raw@[offset as int] + 256 * raw@[offset + 1],
{
    let n: usize = raw.len();
    proof {
        assert(offset + 1 < n);
    }
    let low = raw[offset];
    let high = raw[offset + 1];
    low as u16 + 256 * (high as u16)
}

} // verus!
