//! The verification orchestrator.
//!
//! One call composes the whole pipeline: parse the report, optionally
//! perturb its measurement (test only), parse the leaf certificate, load
//! the vendor root bundle, assemble the chain, validate it, and
//! authenticate the report against the now-trusted leaf. The outcome is
//! `Verified` only when chain validation and report authentication both
//! succeed; otherwise it carries the first failing check's reason.

use vstd::pervasive::arbitrary;
use vstd::prelude::*;

use crate::auth::{auth_result, authenticate};
use crate::cert::{
    cert_parses, cert_wf, window_not_after, window_not_before, x509_window_of, Certificate,
    CertificateView, LeafCertificate, LeafCertificateView,
};
use crate::chain::{
    chain_result, get_cert_chain, supported_product, validate, vendor_ark_der, vendor_ask_der,
    vendor_bundle_ok, CaChainView, Chain, ChainView,
};
use crate::errors::{ParseError, Reason, VerificationResult};
use crate::report::{
    copy_range, report_bytes_of_json, report_chip_id, report_from_json, report_measurement,
    report_parses, report_sig_algo, report_tcb, report_wf, tampered_raw, AttestationReport,
    AttestationReportView,
};

verus! {

/// The certificate value that parsing the given DER bytes yields: the
/// bytes with the validity window read from them. Meaningful only for
/// bytes that parse.
pub open spec fn parsed_cert_view(der: Seq<u8>) -> CertificateView {
    match x509_window_of(der) {
        Some(w) => CertificateView {
            der,
            not_before: window_not_before(w),
            not_after: window_not_after(w),
        },
        None => arbitrary(),
    }
}

/// The report value that parsing the given canonical bytes yields.
/// Meaningful only for bytes that parse.
pub open spec fn parsed_report_view(b: Seq<u8>) -> AttestationReportView {
    AttestationReportView {
        raw: b,
        measurement: report_measurement(b),
        chip_id: report_chip_id(b),
        reported_tcb: report_tcb(b),
        sig_algo: report_sig_algo(b) as u32,
    }
}

/// The upper chain the compiled-in vendor bundle yields. Meaningful only
/// when the bundle decodes and parses.
pub open spec fn vendor_ca_view() -> CaChainView {
    CaChainView {
        ark: match vendor_ark_der(supported_product()) {
            Some(d) => parsed_cert_view(d),
            None => arbitrary(),
        },
        ask: match vendor_ask_der(supported_product()) {
            Some(d) => parsed_cert_view(d),
            None => arbitrary(),
        },
    }
}

/// The full chain assembled from the vendor bundle and a leaf.
pub open spec fn vendor_chain_view(leaf: LeafCertificateView) -> ChainView {
    ChainView { ca: vendor_ca_view(), vcek: leaf }
}

/// The single outcome of verifying a report against a chain at a reference
/// time: `Verified` exactly when every chain check and every
/// authentication check passes, and otherwise the first failure's reason.
pub open spec fn verify_result(c: ChainView, r: AttestationReportView, at: int) -> VerificationResult {
    match chain_result(c, at) {
        Err(e) => VerificationResult::Rejected(Reason::Chain(e)),
        Ok(_) => match auth_result(r, c.vcek) {
            Err(e) => VerificationResult::Rejected(Reason::Auth(e)),
            Ok(_) => VerificationResult::Verified,
        },
    }
}

/// A report all of whose chain checks and authentication checks pass at
/// the reference time is verified.
pub proof fn lemma_valid_report_verifies(c: ChainView, r: AttestationReportView, at: int)
    requires
        chain_result(c, at) is Ok,
        auth_result(r, c.vcek) is Ok,
    ensures
        verify_result(c, r, at) == VerificationResult::Verified,
{
}

/// Verify a parsed report against a parsed leaf certificate at reference
/// time `at`: load the vendor bundle, assemble and validate the chain,
/// then authenticate the report. When `fail_on_purpose` is set the
/// report's measurement is first perturbed (a fresh value; the given
/// report is untouched), which a valid signature must then fail to cover.
pub fn verify_attestation_report_raw(
    report: &AttestationReport,
    vcek: LeafCertificate,
    fail_on_purpose: bool,
    at: i64,
) -> (r: VerificationResult)
    requires
        report_wf(report@),
        crate::cert::leaf_wf(vcek@),
    ensures
        !vendor_bundle_ok() ==> r == VerificationResult::Rejected(
            Reason::Parse(ParseError::MalformedCertificate),
        ),
        vendor_bundle_ok() ==> r == verify_result(
            vendor_chain_view(vcek@),
            if fail_on_purpose {
                parsed_report_view(tampered_raw(report@.raw))
            } else {
                report@
            },
            at as int,
        ),
{
    let checked: &AttestationReport = report;
    let tampered_report: AttestationReport;
    let checked = if fail_on_purpose {
        tampered_report = report.tampered();
        &tampered_report
    } else {
        checked
    };
    let ca = match get_cert_chain("Genoa") {
        Ok(ca) => ca,
        Err(_) => {
            return VerificationResult::Rejected(Reason::Parse(ParseError::MalformedCertificate));
        },
    };
    let full_chain = Chain { ca, vcek };
    let validated = match validate(full_chain, at) {
        Ok(vc) => vc,
        Err(e) => {
            return VerificationResult::Rejected(Reason::Chain(e));
        },
    };
    match authenticate(checked, validated.leaf()) {
        Ok(_) => VerificationResult::Verified,
        Err(e) => VerificationResult::Rejected(Reason::Auth(e)),
    }
}

/// The leaf value the pipeline verifies against: the certificate parsed
/// from the given DER bytes, bound to the hardware identifier and firmware
/// bundle the report names (the pairing the service issues it under).
pub open spec fn pipeline_leaf_view(vcek_der: Seq<u8>, report_raw: Seq<u8>) -> LeafCertificateView {
    LeafCertificateView {
        cert: parsed_cert_view(vcek_der),
        hwid: report_chip_id(report_raw),
        tcb: report_tcb(report_raw),
    }
}

/// The outcome of the whole pipeline on raw inputs, assuming the vendor
/// bundle is intact: parse failures are surfaced first, then the chain and
/// authentication verdict on the parsed values, with the leaf bound to the
/// hardware identifier and firmware bundle the report itself names (the
/// pairing under which it was issued).
pub open spec fn orchestrated_result(
    json: Seq<char>,
    vcek_der: Seq<u8>,
    fail_on_purpose: bool,
    at: int,
) -> VerificationResult {
    match report_bytes_of_json(json) {
        None => VerificationResult::Rejected(Reason::Parse(ParseError::MalformedReport)),
        Some(b) => if !report_parses(b) {
            VerificationResult::Rejected(Reason::Parse(ParseError::UnsupportedVersion))
        } else if !cert_parses(vcek_der) {
            VerificationResult::Rejected(Reason::Parse(ParseError::MalformedCertificate))
        } else {
            verify_result(
                vendor_chain_view(pipeline_leaf_view(vcek_der, b)),
                if fail_on_purpose {
                    parsed_report_view(tampered_raw(b))
                } else {
                    parsed_report_view(b)
                },
                at,
            )
        },
    }
}

/// A validly issued report carries the whole pipeline: when the report and
/// the leaf certificate parse and every chain check and every
/// authentication check passes against the vendor bundle, the pipeline's
/// outcome is `Verified`.
pub proof fn lemma_pipeline_accepts_valid(json: Seq<char>, vcek_der: Seq<u8>, b: Seq<u8>, at: int)
    requires
        report_bytes_of_json(json) == Some(b),
        report_parses(b),
        cert_parses(vcek_der),
        chain_result(vendor_chain_view(pipeline_leaf_view(vcek_der, b)), at) is Ok,
        auth_result(parsed_report_view(b), pipeline_leaf_view(vcek_der, b)) is Ok,
    ensures
        orchestrated_result(json, vcek_der, false, at) == VerificationResult::Verified,
{
}

/// Verify a report given as JSON against a leaf certificate given as DER
/// bytes, at reference time `at`. The leaf is taken as issued for the
/// hardware identifier and firmware bundle the report names — the pairing
/// the key-distribution service issues it under; a leaf whose true binding
/// is known independently can be checked through [`authenticate`] instead.
pub fn verify_attestation_report(
    report_json: &str,
    vcek_bytes: &[u8],
    fail_on_purpose: bool,
    at: i64,
) -> (r: VerificationResult)
    ensures
        vendor_bundle_ok() ==> r == orchestrated_result(
            report_json@,
            vcek_bytes@,
            fail_on_purpose,
            at as int,
        ),
        report_bytes_of_json(report_json@) is None ==> r == VerificationResult::Rejected(
            Reason::Parse(ParseError::MalformedReport),
        ),
        (report_bytes_of_json(report_json@) matches Some(b) && !report_parses(b)) ==> r
            == VerificationResult::Rejected(Reason::Parse(ParseError::UnsupportedVersion)),
        (report_bytes_of_json(report_json@) matches Some(b) && report_parses(b) && !cert_parses(
            vcek_bytes@,
        )) ==> r == VerificationResult::Rejected(Reason::Parse(ParseError::MalformedCertificate)),
        (report_bytes_of_json(report_json@) matches Some(b) && report_parses(b) && cert_parses(
            vcek_bytes@,
        ) && !vendor_bundle_ok()) ==> r == VerificationResult::Rejected(
            Reason::Parse(ParseError::MalformedCertificate),
        ),
{
    let report = match report_from_json(report_json) {
        Ok(rep) => rep,
        Err(e) => {
            return VerificationResult::Rejected(Reason::Parse(e));
        },
    };
    let der = vstd::slice::slice_to_vec(vcek_bytes);
    let cert = match Certificate::from_der(der) {
        Ok(c) => c,
        Err(e) => {
            return VerificationResult::Rejected(Reason::Parse(e));
        },
    };
    let hwid = copy_range(&report.chip_id, 0, 64);
    proof {
        assert(hwid@ =~= report@.chip_id);
    }
    let vcek = LeafCertificate::new(cert, hwid, report.reported_tcb);
    verify_attestation_report_raw(&report, vcek, fail_on_purpose, at)
}

} // verus!
