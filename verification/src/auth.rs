//! The report authenticator.
//!
//! Authentication is independent of chain validation and checks, in order:
//! the signature algorithm, the report's signature against the leaf
//! certificate's public key, the hardware identifier against the one bound
//! into the leaf, and the claimed firmware version bundle against the one
//! the leaf endorses (component-wise, the claim must be at or below the
//! endorsement). Every step must pass; the result is the first failing
//! check's error.

use vstd::prelude::*;

use crate::cert::{leaf_wf, LeafCertificate, LeafCertificateView};
use crate::errors::AuthError;
use crate::report::{report_wf, AttestationReport, AttestationReportView};
use crate::tcb::tcb_leq;
use sev::certs::snp::Certificate as SnpCertificate;
use sev::certs::snp::Verifiable;
use sev::parser::ByteParser;

verus! {

/// The one supported signature-algorithm identifier: ECDSA P-384 with
/// SHA-384.
pub const ECDSA_P384_SHA384: u32 = 1;

/// Whether the signature embedded in the canonical report bytes verifies
/// against the public key of the certificate with the given DER encoding,
/// as the `sev` crate judges it: a function of the two byte strings alone.
pub uninterp spec fn report_sig_ok(raw: Seq<u8>, leaf_der: Seq<u8>) -> bool;

/// Relies on the `sev` crate's report-against-certificate verification:
/// the report is decoded from its canonical bytes, its first 0x2a0 bytes
/// are hashed with SHA-384, and the embedded ECDSA P-384 signature is
/// checked against the certificate's public key through openssl. Bytes
/// that do not decode, a certificate that does not parse, or a key of the
/// wrong kind count as not verifying: the check fails closed.
#[verifier::external_body]
pub(crate) fn check_report_signature(raw: &Vec<u8>, leaf_der: &Vec<u8>) -> (r: bool)
    ensures
        r == report_sig_ok(raw@, leaf_der@),
{
    let report = match sev::firmware::guest::AttestationReport::from_bytes(raw) {
        Ok(rp) => rp,
        Err(_) => return false,
    };
    let cert = match SnpCertificate::from_der(leaf_der) {
        Ok(c) => c,
        Err(_) => return false,
    };
    (&cert, &report).verify().is_ok()
}

/// Decide whether two byte strings are equal.
fn bytes_eq(a: &Vec<u8>, b: &Vec<u8>) -> (r: bool)
    ensures
        r == (a@ == b@),
{
    if a.len() != b.len() {
        return false;
    }
    let n: usize = a.len();
    let mut i: usize = 0;
    while i < n
        invariant
            i <= n,
            n == a@.len(),
            n == b@.len(),
            forall|j: int| 0 <= j < i as int ==> a@[j] == b@[j],
        decreases n - i,
    {
        if a[i] != b[i] {
            return false;
        }
        i = i + 1;
    }
    proof {
        assert(a@ =~= b@);
    }
    true
}

/// The outcome of authenticating a report against a leaf certificate: the
/// first failing check's error, or `Ok` when every check passes.
pub open spec fn auth_result(r: AttestationReportView, l: LeafCertificateView) -> Result<
    (),
    AuthError,
> {
    if r.sig_algo != ECDSA_P384_SHA384 {
        Err(AuthError::UnsupportedAlgorithm)
    } else if !report_sig_ok(r.raw, l.cert.der) {
        Err(AuthError::SignatureInvalid)
    } else if r.chip_id != l.hwid {
        Err(AuthError::HardwareIdentifierMismatch)
    } else if !tcb_leq(r.reported_tcb, l.tcb) {
        Err(AuthError::FirmwareVersionMismatch)
    } else {
        Ok(())
    }
}

/// Authenticate a report against the leaf certificate that is supposed to
/// endorse it. All checks must pass; none is skipped on the strength of an
/// earlier chain validation, which is a separate, independent check.
pub fn authenticate(report: &AttestationReport, leaf: &LeafCertificate) -> (r: Result<
    (),
    AuthError,
>)
    requires
        report_wf(report@),
        leaf_wf(leaf@),
    ensures
        r == auth_result(report@, leaf@),
{
    if report.sig_algo != ECDSA_P384_SHA384 {
        return Err(AuthError::UnsupportedAlgorithm);
    }
    if !check_report_signature(&report.raw, &leaf.cert.der) {
        return Err(AuthError::SignatureInvalid);
    }
    if !bytes_eq(&report.chip_id, &leaf.hwid) {
        return Err(AuthError::HardwareIdentifierMismatch);
    }
    if !report.reported_tcb.leq(&leaf.tcb) {
        return Err(AuthError::FirmwareVersionMismatch);
    }
    Ok(())
}

/// A report paired with a leaf certificate bound to a different hardware
/// identifier is rejected as `HardwareIdentifierMismatch`, even when its
/// signature is valid against that very certificate.
pub proof fn lemma_hwid_mismatch_rejected(r: AttestationReportView, l: LeafCertificateView)
    requires
        r.sig_algo == ECDSA_P384_SHA384,
        report_sig_ok(r.raw, l.cert.der),
        r.chip_id != l.hwid,
    ensures
        auth_result(r, l) == Err::<(), AuthError>(AuthError::HardwareIdentifierMismatch),
{
}

/// A report whose embedded signature does not verify against the leaf's
/// public key — in particular one whose measurement was perturbed after
/// signing, since the signed region covers the measurement — is rejected
/// as `SignatureInvalid`, whatever its other fields say.
pub proof fn lemma_bad_signature_rejected(r: AttestationReportView, l: LeafCertificateView)
    requires
        r.sig_algo == ECDSA_P384_SHA384,
        !report_sig_ok(r.raw, l.cert.der),
    ensures
        auth_result(r, l) == Err::<(), AuthError>(AuthError::SignatureInvalid),
{
}

} // verus!
