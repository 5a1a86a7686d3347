//! End-to-end scenarios: a synthetic three-link chain (root, intermediate,
//! leaf) and a report signed by the leaf key, exercised through the real
//! cryptographic wrappers.

use openssl::asn1::Asn1Time;
use openssl::bn::BigNumRef;
use openssl::ec::{EcGroup, EcKey};
use openssl::hash::{hash, MessageDigest};
use openssl::nid::Nid;
use openssl::pkey::{PKey, Private};
use openssl::x509::{X509Name, X509NameBuilder, X509};

use sev::certs::snp::ecdsa::Signature;
use sev::firmware::guest::AttestationReport as SevReport;
use sev::firmware::host::TcbVersion as SevTcb;
use sev::parser::ByteParser;

use snp_attest::auth::authenticate;
use snp_attest::cert::{Certificate, LeafCertificate};
use snp_attest::chain::{validate, CaChain, Chain};
use snp_attest::errors::{AuthError, ChainError, ParseError, Reason, VerificationResult};
use snp_attest::report::{parse_report, report_from_json};
use snp_attest::tcb::TcbVersion;
use snp_attest::verify::{verify_attestation_report, verify_attestation_report_raw};

use std::time::{SystemTime, UNIX_EPOCH};

fn p384_key() -> PKey<Private> {
    let group = EcGroup::from_curve_name(Nid::SECP384R1).unwrap();
    let ec = EcKey::generate(&group).unwrap();
    PKey::from_ec_key(ec).unwrap()
}

fn name(cn: &str) -> X509Name {
    let mut b = X509NameBuilder::new().unwrap();
    b.append_entry_by_text("CN", cn).unwrap();
    b.build()
}

fn cert_der(subject: &str, issuer: &str, key: &PKey<Private>, signer: &PKey<Private>) -> Vec<u8> {
    let mut b = X509::builder().unwrap();
    b.set_version(2).unwrap();
    b.set_subject_name(&name(subject)).unwrap();
    b.set_issuer_name(&name(issuer)).unwrap();
    b.set_pubkey(key).unwrap();
    b.set_not_before(&Asn1Time::days_from_now(0).unwrap()).unwrap();
    b.set_not_after(&Asn1Time::days_from_now(30).unwrap()).unwrap();
    b.sign(signer, MessageDigest::sha384()).unwrap();
    b.build().to_der().unwrap()
}

fn to_le72(bn: &BigNumRef) -> [u8; 72] {
    let mut out = [0u8; 72];
    for (i, b) in bn.to_vec().into_iter().rev().enumerate() {
        out[i] = b;
    }
    out
}

/// A sample report signed by `signer`, with the fixed measurement, chip id
/// and firmware bundle the other tests expect.
fn signed_sample_report(signer: &PKey<Private>) -> SevReport {
    let mut rep = SevReport::default();
    rep.version = 2;
    rep.sig_algo = 1;
    rep.measurement = [0xab; 48];
    rep.chip_id = [0x11; 64];
    rep.reported_tcb = SevTcb {
        fmc: None,
        bootloader: 7,
        tee: 0,
        snp: 14,
        microcode: 62,
    };
    let raw = rep.to_bytes().unwrap();
    let digest = hash(MessageDigest::sha384(), &raw[..0x2a0]).unwrap();
    let ec = signer.ec_key().unwrap();
    let sig = openssl::ecdsa::EcdsaSig::sign(&digest, &ec).unwrap();
    rep.signature = Signature::new(to_le72(sig.r()), to_le72(sig.s()));
    rep
}

/// The synthetic world of these tests: chain certificates, the leaf's key,
/// the signed report bytes, and a reference time inside every validity
/// window.
struct Fixture {
    chain: Chain,
    report_raw: Vec<u8>,
    report_json: String,
    leaf_der: Vec<u8>,
    at: i64,
}

fn fixture() -> Fixture {
    let root_key = p384_key();
    let inter_key = p384_key();
    let leaf_key = p384_key();
    let root_der = cert_der("Root", "Root", &root_key, &root_key);
    let inter_der = cert_der("Inter", "Root", &inter_key, &root_key);
    let leaf_der = cert_der("Leaf", "Inter", &leaf_key, &inter_key);

    let rep = signed_sample_report(&leaf_key);
    let report_raw = rep.to_bytes().unwrap().to_vec();
    let report_json = serde_json::to_string(&rep).unwrap();

    let ark = Certificate::from_der(root_der).unwrap();
    let ask = Certificate::from_der(inter_der).unwrap();
    let leaf_cert = Certificate::from_der(leaf_der.clone()).unwrap();
    let vcek = LeafCertificate::new(leaf_cert, vec![0x11u8; 64], TcbVersion::new(7, 0, 14, 62));

    let at = SystemTime::now().duration_since(UNIX_EPOCH).unwrap().as_secs() as i64 + 100;
    Fixture {
        chain: Chain { ca: CaChain { ark, ask }, vcek },
        report_raw,
        report_json,
        leaf_der,
        at,
    }
}

#[test]
fn test_sample_attestation_verifies() {
    let fx = fixture();
    let report = parse_report(fx.report_raw).unwrap();
    let validated = validate(fx.chain, fx.at).unwrap();
    let result = authenticate(&report, validated.leaf());
    assert!(result.is_ok());
}

#[test]
fn test_tampered_sample_attestation_fails_verification() {
    let fx = fixture();
    let report = parse_report(fx.report_raw).unwrap();
    let tampered = report.tampered();
    assert_eq!(tampered.measurement[0], 0xac);
    assert_eq!(report.measurement[0], 0xab);
    let validated = validate(fx.chain, fx.at).unwrap();
    let result = authenticate(&tampered, validated.leaf());
    assert_eq!(result, Err(AuthError::SignatureInvalid));
}

#[test]
fn test_verify_attestation_report() {
    // The orchestrator chains up to the compiled-in vendor root, which did
    // not issue this synthetic leaf, so the chain is rejected at the leaf
    // link; a vendor-issued certificate would be needed for `Verified`.
    let fx = fixture();
    let result = verify_attestation_report(&fx.report_json, &fx.leaf_der, false, fx.at);
    assert_eq!(
        result,
        VerificationResult::Rejected(Reason::Chain(ChainError::LeafSignatureInvalid))
    );
}

#[test]
fn test_report_json_round_trip_authenticates() {
    let fx = fixture();
    let report = report_from_json(&fx.report_json).unwrap();
    let validated = validate(fx.chain, fx.at).unwrap();
    assert!(authenticate(&report, validated.leaf()).is_ok());
}

#[test]
fn test_hardware_identifier_mismatch_rejected() {
    // A consistent, correctly signed pair — but the leaf is bound to a
    // different hardware identifier.
    let fx = fixture();
    let report = parse_report(fx.report_raw).unwrap();
    let other = LeafCertificate::new(
        Certificate::from_der(fx.leaf_der).unwrap(),
        vec![0x22u8; 64],
        TcbVersion::new(7, 0, 14, 62),
    );
    let result = authenticate(&report, &other);
    assert_eq!(result, Err(AuthError::HardwareIdentifierMismatch));
}

#[test]
fn test_newer_firmware_claim_rejected() {
    // The leaf endorses an older bundle than the report claims.
    let fx = fixture();
    let report = parse_report(fx.report_raw).unwrap();
    let stale = LeafCertificate::new(
        Certificate::from_der(fx.leaf_der).unwrap(),
        vec![0x11u8; 64],
        TcbVersion::new(7, 0, 13, 62),
    );
    let result = authenticate(&report, &stale);
    assert_eq!(result, Err(AuthError::FirmwareVersionMismatch));
}

#[test]
fn test_unsupported_algorithm_rejected() {
    let fx = fixture();
    let mut raw = fx.report_raw.clone();
    raw[0x34] = 9;
    let report = parse_report(raw).unwrap();
    let validated = validate(fx.chain, fx.at).unwrap();
    let result = authenticate(&report, validated.leaf());
    assert_eq!(result, Err(AuthError::UnsupportedAlgorithm));
}

#[test]
fn test_bad_intermediate_rejected() {
    // The intermediate is signed by an unrelated key: validation must stop
    // at that link, whatever the leaf looks like.
    let fx = fixture();
    let rogue = p384_key();
    let inter_key = p384_key();
    let Chain { ca, vcek } = fx.chain;
    let bad_inter = Certificate::from_der(cert_der("Inter", "Root", &inter_key, &rogue)).unwrap();
    let chain = Chain { ca: CaChain { ark: ca.ark, ask: bad_inter }, vcek };
    let result = validate(chain, fx.at);
    assert_eq!(result.err().unwrap(), ChainError::IntermediateSignatureInvalid);
}

#[test]
fn test_root_not_self_signed_rejected() {
    let fx = fixture();
    let rogue = p384_key();
    let root_key = p384_key();
    let Chain { ca, vcek } = fx.chain;
    let bad_root = Certificate::from_der(cert_der("Root", "Root", &root_key, &rogue)).unwrap();
    let chain = Chain { ca: CaChain { ark: bad_root, ask: ca.ask }, vcek };
    let result = validate(chain, fx.at);
    assert_eq!(result.err().unwrap(), ChainError::RootSelfSignFailed);
}

#[test]
fn test_expired_chain_rejected() {
    let fx = fixture();
    let late = fx.at + 86400 * 365;
    let result = validate(fx.chain, late);
    assert_eq!(result.err().unwrap(), ChainError::ValidityExpired);
}

#[test]
fn test_orchestrator_tamper_flag_rejects_before_vendor_leaf() {
    // Even under the tamper flag the chain is checked first, so the
    // synthetic leaf is rejected at the same link.
    let fx = fixture();
    let result = verify_attestation_report(&fx.report_json, &fx.leaf_der, true, fx.at);
    assert_eq!(
        result,
        VerificationResult::Rejected(Reason::Chain(ChainError::LeafSignatureInvalid))
    );
}

#[test]
fn test_raw_orchestrator_uses_vendor_root() {
    let fx = fixture();
    let report = parse_report(fx.report_raw).unwrap();
    let result = verify_attestation_report_raw(&report, fx.chain.vcek, false, fx.at);
    assert_eq!(
        result,
        VerificationResult::Rejected(Reason::Chain(ChainError::LeafSignatureInvalid))
    );
}

#[test]
fn test_malformed_certificate_rejected_by_orchestrator() {
    let fx = fixture();
    let garbage = vec![0u8; 10];
    let result = verify_attestation_report(&fx.report_json, &garbage, false, fx.at);
    assert_eq!(
        result,
        VerificationResult::Rejected(Reason::Parse(ParseError::MalformedCertificate))
    );
}

#[test]
fn test_malformed_report_rejected_by_orchestrator() {
    let fx = fixture();
    let result = verify_attestation_report("not json", &fx.leaf_der, false, fx.at);
    assert_eq!(
        result,
        VerificationResult::Rejected(Reason::Parse(ParseError::MalformedReport))
    );
}
