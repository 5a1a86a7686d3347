//! The attestation report model and its parser.
//!
//! A report travels as a fixed-layout 1184-byte binary value (or as JSON
//! that re-encodes to it). The fields the verifier reads — measurement,
//! hardware identifier, claimed firmware version bundle, signature
//! algorithm — sit at fixed offsets of that layout; the parser extracts
//! them and keeps the raw bytes, which are what the signature covers.

use vstd::prelude::*;

use crate::errors::ParseError;
use crate::tcb::TcbVersion;
use sev::parser::ByteParser;

verus! {

/// The little-endian 32-bit value at offset `off`.
pub open spec fn le32_at(b: Seq<u8>, off: int) -> int {
    b[off] + b[off + 1] * 0x100 + b[off + 2] * 0x10000 + b[off + 3] * 0x1000000
}

/// The report's version field.
pub open spec fn report_version(b: Seq<u8>) -> int {
    le32_at(b, 0)
}

/// The report's signature-algorithm field.
pub open spec fn report_sig_algo(b: Seq<u8>) -> int {
    le32_at(b, 0x34)
}

/// The measurement of the launched software.
pub open spec fn report_measurement(b: Seq<u8>) -> Seq<u8> {
    b.subrange(0x90, 0xc0)
}

/// The chip-unique hardware identifier.
pub open spec fn report_chip_id(b: Seq<u8>) -> Seq<u8> {
    b.subrange(0x1a0, 0x1e0)
}

/// The firmware version bundle the report claims, from the reported-TCB
/// field's component bytes.
pub open spec fn report_tcb(b: Seq<u8>) -> TcbVersion {
    TcbVersion {
        bootloader: b[0x180],
        tee: b[0x181],
        snp: b[0x186],
        microcode: b[0x187],
    }
}

/// Whether the bytes are a report this crate decodes: the fixed length and
/// the one supported layout version.
pub open spec fn report_parses(b: Seq<u8>) -> bool {
    b.len() == 1184 && report_version(b) == 2
}

/// The mathematical value of a parsed report.
pub struct AttestationReportView {
    /// The canonical binary form; its first 0x2a0 bytes are what the
    /// signature covers.
    pub raw: Seq<u8>,
    /// The measurement of the launched software.
    pub measurement: Seq<u8>,
    /// The chip-unique hardware identifier.
    pub chip_id: Seq<u8>,
    /// The claimed firmware version bundle.
    pub reported_tcb: TcbVersion,
    /// The signature-algorithm identifier.
    pub sig_algo: u32,
}

/// A parsed attestation report: the raw canonical bytes together with the
/// fields the verifier reads from them. Immutable once parsed; the one
/// mutation point, the test-only measurement perturbation, produces a new
/// value through [`AttestationReport::tampered`].
pub struct AttestationReport {
    /// The canonical binary form.
    pub raw: Vec<u8>,
    /// The measurement of the launched software.
    pub measurement: Vec<u8>,
    /// The chip-unique hardware identifier.
    pub chip_id: Vec<u8>,
    /// The claimed firmware version bundle.
    pub reported_tcb: TcbVersion,
    /// The signature-algorithm identifier.
    pub sig_algo: u32,
}

impl View for AttestationReport {
    type V = AttestationReportView;

    open spec fn view(&self) -> AttestationReportView {
        AttestationReportView {
            raw: self.raw@,
            measurement: self.measurement@,
            chip_id: self.chip_id@,
            reported_tcb: self.reported_tcb,
            sig_algo: self.sig_algo,
        }
    }
}

/// A well-formed report value: the raw bytes parse and every extracted
/// field is exactly what the layout holds at its offset.
pub open spec fn report_wf(r: AttestationReportView) -> bool {
    &&& report_parses(r.raw)
    &&& r.measurement == report_measurement(r.raw)
    &&& r.chip_id == report_chip_id(r.raw)
    &&& r.reported_tcb == report_tcb(r.raw)
    &&& r.sig_algo as int == report_sig_algo(r.raw)
}

/// Copy `len` bytes of `src` starting at `off`.
pub fn copy_range(src: &Vec<u8>, off: usize, len: usize) -> (r: Vec<u8>)
    requires
        off + len <= src@.len(),
    ensures
        r@ == src@.subrange(off as int, off as int + len as int),
{
    let n: usize = src.len();
    let mut out: Vec<u8> = Vec::new();
    let mut i: usize = 0;
    while i < len
        invariant
            i <= len,
            off + len <= n,
            n == src@.len(),
            out@ == src@.subrange(off as int, off as int + i as int),
        decreases len - i,
    {
        out.push(src[off + i]);
        proof {
            assert(out@ =~= src@.subrange(off as int, off as int + (i + 1) as int));
        }
        i = i + 1;
    }
    out
}

/// Read the little-endian 32-bit value at offset `off`.
fn read_le32(b: &Vec<u8>, off: usize) -> (r: u32)
    requires
        off + 4 <= b@.len(),
    ensures
        r as int == le32_at(b@, off as int),
{
    let n: usize = b.len();
    assert(off + 3 < n);
    (b[off] as u32) + (b[off + 1] as u32) * 0x100 + (b[off + 2] as u32) * 0x10000 + (b[off
        + 3] as u32) * 0x1000000
}

/// Decode a report from its canonical 1184-byte binary form. Fails exactly
/// on bytes of the wrong length (`TruncatedReport`) or of an unsupported
/// layout version (`UnsupportedVersion`); never panics on any input.
pub fn parse_report(bytes: Vec<u8>) -> (r: Result<AttestationReport, ParseError>)
    ensures
        r is Ok <==> report_parses(bytes@),
        r matches Ok(rep) ==> rep@.raw == bytes@ && report_wf(rep@),
        r matches Err(e) ==> e == (if bytes@.len() != 1184 {
            ParseError::TruncatedReport
        } else {
            ParseError::UnsupportedVersion
        }),
{
    if bytes.len() != 1184 {
        return Err(ParseError::TruncatedReport);
    }
    let version = read_le32(&bytes, 0);
    if version != 2 {
        return Err(ParseError::UnsupportedVersion);
    }
    let sig_algo = read_le32(&bytes, 52);
    let measurement = copy_range(&bytes, 144, 48);
    let chip_id = copy_range(&bytes, 416, 64);
    let reported_tcb = TcbVersion::new(bytes[384], bytes[385], bytes[390], bytes[391]);
    Ok(AttestationReport { raw: bytes, measurement, chip_id, reported_tcb, sig_algo })
}

/// The raw bytes with the first measurement byte incremented, wrapping.
pub open spec fn tampered_raw(b: Seq<u8>) -> Seq<u8> {
    b.update(0x90, ((b[0x90] + 1) % 0x100) as u8)
}

impl AttestationReport {
    /// A new report value equal to this one except that the first byte of
    /// the measurement is incremented (wrapping): the fault-injection path
    /// for exercising signature failure. The original value is untouched.
    pub fn tampered(&self) -> (r: AttestationReport)
        requires
            report_wf(self@),
        ensures
            r@.raw == tampered_raw(self@.raw),
            report_wf(r@),
            r@.chip_id == self@.chip_id,
            r@.reported_tcb == self@.reported_tcb,
            r@.sig_algo == self@.sig_algo,
            r@.measurement == report_measurement(tampered_raw(self@.raw)),
            r@.measurement[0] as int == (self@.measurement[0] + 1) % 0x100,
            r@.raw != self@.raw,
    {
        let mut raw: Vec<u8> = Vec::new();
        let mut i: usize = 0;
        while i < self.raw.len()
            invariant
                i <= self.raw@.len(),
                self.raw@.len() == 1184,
                raw@.len() == i as int,
                forall|j: int|
                    0 <= j < i as int ==> raw@[j] == (if j == 0x90 {
                        ((self.raw@[j] + 1) % 0x100) as u8
                    } else {
                        self.raw@[j]
                    }),
            decreases self.raw@.len() - i,
        {
            let b = self.raw[i];
            if i == 144 {
                let nb: u8 = if b == 255 {
                    0
                } else {
                    b + 1
                };
                raw.push(nb);
            } else {
                raw.push(b);
            }
            i = i + 1;
        }
        proof {
            assert(raw@ =~= tampered_raw(self@.raw));
            assert(report_measurement(raw@) =~= report_measurement(self@.raw).update(
                0,
                ((self@.raw[0x90] + 1) % 0x100) as u8,
            ));
            assert(report_chip_id(raw@) =~= report_chip_id(self@.raw));
        }
        let sig_algo = read_le32(&raw, 52);
        let measurement = copy_range(&raw, 144, 48);
        let chip_id = copy_range(&raw, 416, 64);
        let reported_tcb = TcbVersion::new(raw[384], raw[385], raw[390], raw[391]);
        let out = AttestationReport { raw, measurement, chip_id, reported_tcb, sig_algo };
        proof {
            assert(out@.raw[0x90] != self@.raw[0x90]);
        }
        out
    }
}

/// The canonical binary form of the report a JSON text describes: `None`
/// when the text does not decode to a report value or the value cannot be
/// re-encoded. A function of the text alone.
pub uninterp spec fn report_bytes_of_json(s: Seq<char>) -> Option<Seq<u8>>;

/// Relies on `serde_json::from_str` for `sev`'s report type and on the
/// `sev` crate's canonical binary encoder (`ByteParser::to_bytes`), whose
/// output is checked there to have the fixed 1184-byte length.
#[verifier::external_body]
fn report_bytes_from_json(json: &str) -> (r: Option<Vec<u8>>)
    ensures
        r matches Some(v) ==> report_bytes_of_json(json@) == Some(v@) && v@.len() == 1184,
        r is None ==> report_bytes_of_json(json@) is None,
{
    let report: sev::firmware::guest::AttestationReport = match serde_json::from_str(json) {
        Ok(rp) => rp,
        Err(_) => return None,
    };
    match report.to_bytes() {
        Ok(b) => Some(b.to_vec()),
        Err(_) => None,
    }
}

/// Decode a report from its JSON serialization: the text is re-encoded to
/// the canonical binary form, which is then parsed as [`parse_report`]
/// does. Fails with `MalformedReport` exactly when the text does not
/// describe a report value.
pub fn report_from_json(json: &str) -> (r: Result<AttestationReport, ParseError>)
    ensures
        r is Ok <==> (report_bytes_of_json(json@) matches Some(b) && report_parses(b)),
        r matches Ok(rep) ==> report_bytes_of_json(json@) == Some(rep@.raw) && report_wf(rep@),
        r matches Err(e) ==> e == (if report_bytes_of_json(json@) is None {
            ParseError::MalformedReport
        } else {
            ParseError::UnsupportedVersion
        }),
{
    match report_bytes_from_json(json) {
        Some(bytes) => parse_report(bytes),
        None => Err(ParseError::MalformedReport),
    }
}

} // verus!
