//! The certificate model.
//!
//! A certificate is kept as the exact DER bytes that every cryptographic
//! check consumes, together with the validity window read from them. What
//! only openssl can compute — parsing, the validity instants, signature and
//! issuer checks — sits behind trusted wrappers; their results are named
//! functions of the DER bytes alone.

use vstd::prelude::*;

use crate::errors::ParseError;
use crate::tcb::TcbVersion;
use sev::certs::snp::Certificate as SnpCertificate;
use sev::certs::snp::Verifiable;

verus! {

/// What openssl reports of a certificate's validity window: for bytes that
/// parse as a DER-encoded X.509 certificate, the notBefore and notAfter
/// instants, each as a (days, seconds) offset from the Unix epoch; `None`
/// for bytes that do not parse. A function of the bytes alone.
pub uninterp spec fn x509_window_of(der: Seq<u8>) -> Option<(i32, i32, i32, i32)>;

/// Whether the bytes parse as a DER-encoded X.509 certificate.
pub open spec fn cert_parses(der: Seq<u8>) -> bool {
    x509_window_of(der) is Some
}

/// The notBefore instant of a window tuple, in seconds since the epoch.
pub open spec fn window_not_before(w: (i32, i32, i32, i32)) -> int {
    w.0 * 86400 + w.1
}

/// The notAfter instant of a window tuple, in seconds since the epoch.
pub open spec fn window_not_after(w: (i32, i32, i32, i32)) -> int {
    w.2 * 86400 + w.3
}

/// Whether the public key of the first certificate verifies the signature
/// on the second, as openssl judges it: a function of the two DER
/// encodings alone.
pub uninterp spec fn cert_signs(issuer_der: Seq<u8>, subject_der: Seq<u8>) -> bool;

/// Whether the first certificate's subject name matches the second's issuer
/// name (with the related key-identifier checks), as openssl judges it: a
/// function of the two DER encodings alone.
pub uninterp spec fn cert_issued(issuer_der: Seq<u8>, subject_der: Seq<u8>) -> bool;

/// Relies on openssl: `X509::from_der` to parse the certificate and
/// `Asn1TimeRef::diff` against `Asn1Time::from_unix(0)` to read notBefore
/// and notAfter as (days, seconds) offsets from the epoch. Returns `None`
/// exactly when the bytes are not a certificate openssl accepts (or a
/// window instant cannot be read).
#[verifier::external_body]
fn x509_validity_window(der: &Vec<u8>) -> (r: Option<(i32, i32, i32, i32)>)
    ensures
        r == x509_window_of(der@),
{
    let cert = openssl::x509::X509::from_der(der).ok()?;
    let epoch = openssl::asn1::Asn1Time::from_unix(0).ok()?;
    let nb = epoch.diff(cert.not_before()).ok()?;
    let na = epoch.diff(cert.not_after()).ok()?;
    Some((nb.days, nb.secs, na.days, na.secs))
}

/// Relies on `sev::certs::snp::Certificate`'s pairwise verification, which
/// checks the subject's signature against the issuer's public key through
/// openssl's `X509::verify`. Bytes that do not parse, or a key that cannot
/// be used, count as not signing: the check fails closed.
#[verifier::external_body]
pub(crate) fn check_cert_signature(issuer_der: &Vec<u8>, subject_der: &Vec<u8>) -> (r: bool)
    ensures
        r == cert_signs(issuer_der@, subject_der@),
{
    let issuer = match SnpCertificate::from_der(issuer_der) {
        Ok(c) => c,
        Err(_) => return false,
    };
    let subject = match SnpCertificate::from_der(subject_der) {
        Ok(c) => c,
        Err(_) => return false,
    };
    (&issuer, &subject).verify().is_ok()
}

/// Relies on openssl's `X509Ref::issued`, which checks the issuer/subject
/// name linkage between the two certificates. Bytes that do not parse count
/// as not linked: the check fails closed.
#[verifier::external_body]
pub(crate) fn check_cert_issued(issuer_der: &Vec<u8>, subject_der: &Vec<u8>) -> (r: bool)
    ensures
        r == cert_issued(issuer_der@, subject_der@),
{
    let issuer = match openssl::x509::X509::from_der(issuer_der) {
        Ok(c) => c,
        Err(_) => return false,
    };
    let subject = match openssl::x509::X509::from_der(subject_der) {
        Ok(c) => c,
        Err(_) => return false,
    };
    issuer.issued(&subject) == openssl::x509::X509VerifyResult::OK
}

/// The mathematical value of a certificate: its DER bytes and the validity
/// window read from them.
pub struct CertificateView {
    /// The DER encoding.
    pub der: Seq<u8>,
    /// notBefore, in seconds since the epoch.
    pub not_before: int,
    /// notAfter, in seconds since the epoch.
    pub not_after: int,
}

/// A certificate of the vendor chain: the exact DER bytes every signature
/// check consumes, with the validity window extracted from them.
pub struct Certificate {
    /// The DER encoding.
    pub der: Vec<u8>,
    /// notBefore, in seconds since the Unix epoch.
    pub not_before: i64,
    /// notAfter, in seconds since the Unix epoch.
    pub not_after: i64,
}

impl View for Certificate {
    type V = CertificateView;

    open spec fn view(&self) -> CertificateView {
        CertificateView {
            der: self.der@,
            not_before: self.not_before as int,
            not_after: self.not_after as int,
        }
    }
}

/// A well-formed certificate value: its bytes parse and its window fields
/// are exactly the instants openssl reads from those bytes.
pub open spec fn cert_wf(c: CertificateView) -> bool {
    match x509_window_of(c.der) {
        Some(w) => c.not_before == window_not_before(w) && c.not_after == window_not_after(w),
        None => false,
    }
}

/// Whether the instant `at` lies inside the certificate's validity window.
pub open spec fn cert_valid_at(c: CertificateView, at: int) -> bool {
    c.not_before <= at <= c.not_after
}

impl Certificate {
    /// Parse a certificate from its DER encoding; fails exactly on bytes
    /// that are not a DER-encoded X.509 certificate.
    pub fn from_der(der: Vec<u8>) -> (r: Result<Certificate, ParseError>)
        ensures
            r is Ok <==> cert_parses(der@),
            r matches Ok(c) ==> c@.der == der@ && cert_wf(c@),
            r matches Err(e) ==> e == ParseError::MalformedCertificate,
    {
        match x509_validity_window(&der) {
            Some(w) => {
                let nb: i64 = (w.0 as i64) * 86400 + (w.1 as i64);
                let na: i64 = (w.2 as i64) * 86400 + (w.3 as i64);
                Ok(Certificate { der, not_before: nb, not_after: na })
            },
            None => Err(ParseError::MalformedCertificate),
        }
    }

    /// Decide whether `at` lies inside the validity window.
    pub fn valid_at(&self, at: i64) -> (r: bool)
        ensures
            r == cert_valid_at(self@, at as int),
    {
        self.not_before <= at && at <= self.not_after
    }

}

/// The mathematical value of a leaf certificate: the certificate itself and
/// the hardware identifier and firmware version bundle bound to it.
pub struct LeafCertificateView {
    /// The certificate.
    pub cert: CertificateView,
    /// The hardware identifier the certificate endorses.
    pub hwid: Seq<u8>,
    /// The firmware version bundle the certificate endorses.
    pub tcb: TcbVersion,
}

/// The chip- and firmware-specific endorsement certificate (the VCEK), with
/// the hardware identifier and firmware version bundle it is bound to. The
/// key-distribution service issues one certificate per (hardware id,
/// firmware bundle) pair, so the binding is fixed by the parameters the
/// certificate was obtained for.
pub struct LeafCertificate {
    /// The certificate.
    pub cert: Certificate,
    /// The hardware identifier the certificate endorses.
    pub hwid: Vec<u8>,
    /// The firmware version bundle the certificate endorses.
    pub tcb: TcbVersion,
}

impl View for LeafCertificate {
    type V = LeafCertificateView;

    open spec fn view(&self) -> LeafCertificateView {
        LeafCertificateView { cert: self.cert@, hwid: self.hwid@, tcb: self.tcb }
    }
}

/// A well-formed leaf value: the certificate is well formed and the bound
/// hardware identifier has the fixed width the reports carry.
pub open spec fn leaf_wf(l: LeafCertificateView) -> bool {
    cert_wf(l.cert) && l.hwid.len() == 64
}

impl LeafCertificate {
    /// Bind a parsed certificate to the hardware identifier and firmware
    /// version bundle it was issued for.
    pub fn new(cert: Certificate, hwid: Vec<u8>, tcb: TcbVersion) -> (r: LeafCertificate)
        requires
            hwid@.len() == 64,
        ensures
            r@ == (LeafCertificateView { cert: cert@, hwid: hwid@, tcb }),
            cert_wf(cert@) ==> leaf_wf(r@),
    {
        LeafCertificate { cert, hwid, tcb }
    }
}

} // verus!
