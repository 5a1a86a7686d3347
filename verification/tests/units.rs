//! Unit tests: the locator's URL computation, hex encoding, firmware
//! bundle ordering, the report parser's error cases, and the vendor root
//! bundle loader.

use snp_attest::chain::{get_cert_chain, product_supported};
use snp_attest::errors::{BundleError, FetchError, ParseError};
use snp_attest::kds::{hex_encode, vcek_request_url};
use snp_attest::report::parse_report;
use snp_attest::tcb::TcbVersion;

#[test]
fn test_vcek_url_exact() {
    let chip_id = vec![0x11u8; 64];
    let tcb = TcbVersion::new(7, 0, 14, 62);
    let url = vcek_request_url(&chip_id, &tcb, "Genoa").unwrap();
    let expected = format!(
        "https://kdsintf.amd.com/vcek/v1/Genoa/{}?blSPL=07&teeSPL=00&snpSPL=14&ucodeSPL=62",
        "11".repeat(64)
    );
    assert_eq!(url, expected.as_bytes().to_vec());
}

#[test]
fn test_vcek_url_three_digit_counter() {
    let chip_id = vec![0u8; 64];
    let tcb = TcbVersion::new(255, 100, 9, 0);
    let url = vcek_request_url(&chip_id, &tcb, "Genoa").unwrap();
    let text = String::from_utf8(url).unwrap();
    assert!(text.ends_with("?blSPL=255&teeSPL=100&snpSPL=09&ucodeSPL=00"));
}

#[test]
fn test_unsupported_product_fails_before_any_request() {
    let chip_id = vec![0x11u8; 64];
    let tcb = TcbVersion::new(7, 0, 14, 62);
    let result = vcek_request_url(&chip_id, &tcb, "Milan");
    assert_eq!(result, Err(FetchError::UnsupportedProduct));
    assert!(!product_supported("Milan"));
    assert!(!product_supported(""));
    assert!(product_supported("Genoa"));
}

#[test]
fn test_fetch_request_idempotent() {
    // Identical parameters form the identical request; the service is
    // documented to answer one URL with one certificate.
    let chip_id = vec![0xfeu8; 64];
    let tcb = TcbVersion::new(1, 2, 3, 4);
    let first = vcek_request_url(&chip_id, &tcb, "Genoa").unwrap();
    let second = vcek_request_url(&chip_id, &tcb, "Genoa").unwrap();
    assert_eq!(first, second);
}

#[test]
fn test_hex_encode_matches_reference() {
    let bytes = vec![0x00u8, 0x01, 0x0a, 0x10, 0x7f, 0x80, 0xfe, 0xff];
    let ours = String::from_utf8(hex_encode(&bytes)).unwrap();
    assert_eq!(ours, hex::encode(&bytes));
    assert_eq!(ours, "00010a107f80feff");
}

#[test]
fn test_tcb_component_wise_order() {
    let a = TcbVersion::new(1, 2, 3, 4);
    let b = TcbVersion::new(1, 3, 3, 4);
    let c = TcbVersion::new(2, 1, 3, 4);
    assert!(a.leq(&b));
    assert!(!b.leq(&a));
    assert!(a.leq(&a));
    // Incomparable in both directions: each is newer in one component.
    assert!(!b.leq(&c));
    assert!(!c.leq(&b));
}

#[test]
fn test_truncated_report_rejected() {
    let result = parse_report(vec![0u8; 100]);
    assert_eq!(result.err().unwrap(), ParseError::TruncatedReport);
    let result = parse_report(vec![0u8; 1185]);
    assert_eq!(result.err().unwrap(), ParseError::TruncatedReport);
}

#[test]
fn test_unsupported_report_version_rejected() {
    let mut bytes = vec![0u8; 1184];
    bytes[0] = 3;
    let result = parse_report(bytes);
    assert_eq!(result.err().unwrap(), ParseError::UnsupportedVersion);
}

#[test]
fn test_parse_report_extracts_fields() {
    let mut bytes = vec![0u8; 1184];
    bytes[0] = 2;
    bytes[0x34] = 1;
    for i in 0..48 {
        bytes[0x90 + i] = 0xab;
    }
    for i in 0..64 {
        bytes[0x1a0 + i] = 0x11;
    }
    bytes[0x180] = 7;
    bytes[0x181] = 5;
    bytes[0x186] = 14;
    bytes[0x187] = 62;
    let report = parse_report(bytes).unwrap();
    assert_eq!(report.sig_algo, 1);
    assert_eq!(report.measurement, vec![0xabu8; 48]);
    assert_eq!(report.chip_id, vec![0x11u8; 64]);
    assert_eq!(report.reported_tcb, TcbVersion::new(7, 5, 14, 62));
}

#[test]
fn test_vendor_bundle_loads_for_supported_product_only() {
    let ca = get_cert_chain("Genoa").unwrap();
    assert!(!ca.ark.der.is_empty());
    assert!(!ca.ask.der.is_empty());
    assert_eq!(
        get_cert_chain("Milan").err().unwrap(),
        BundleError::UnsupportedProduct
    );
    assert_eq!(
        get_cert_chain("").err().unwrap(),
        BundleError::UnsupportedProduct
    );
}

#[test]
fn test_vendor_root_bundle_self_consistent() {
    // The compiled-in root and intermediate certificates parse, and the
    // present moment lies inside both validity windows.
    let ca = get_cert_chain("Genoa").unwrap();
    let at = std::time::SystemTime::now()
        .duration_since(std::time::UNIX_EPOCH)
        .unwrap()
        .as_secs() as i64;
    assert!(ca.ark.valid_at(at));
    assert!(ca.ask.valid_at(at));
}
