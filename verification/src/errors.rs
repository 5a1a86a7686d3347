//! Failure taxonomy of the verifier.
//!
//! Every fallible step returns a typed failure; nothing is downgraded to
//! success, and a transport failure is never conflated with a cryptographic
//! or policy rejection.

use vstd::prelude::*;

verus! {

/// Failure to decode a report or a certificate from raw bytes.
#[derive(Clone, Copy, Debug, PartialEq, Eq, Structural)]
pub enum ParseError {
    /// The report bytes do not have the expected fixed length.
    TruncatedReport,
    /// The report's version field names a layout this crate does not decode.
    UnsupportedVersion,
    /// The report could not be decoded from its serialized form.
    MalformedReport,
    /// The certificate bytes are not a DER-encoded X.509 certificate.
    MalformedCertificate,
}

/// A certificate-chain link that failed to validate.
#[derive(Clone, Copy, Debug, PartialEq, Eq, Structural)]
pub enum ChainError {
    /// The root certificate's signature does not verify against its own key.
    RootSelfSignFailed,
    /// The intermediate's signature does not verify against the root's key.
    IntermediateSignatureInvalid,
    /// The leaf's signature does not verify against the intermediate's key.
    LeafSignatureInvalid,
    /// The reference time lies outside a certificate's validity window.
    ValidityExpired,
}

/// A report-authentication check that failed.
#[derive(Clone, Copy, Debug, PartialEq, Eq, Structural)]
pub enum AuthError {
    /// The report names a signature algorithm this crate does not support.
    UnsupportedAlgorithm,
    /// The report's signature does not verify against the leaf's public key.
    SignatureInvalid,
    /// The report's hardware identifier differs from the one bound into the
    /// leaf certificate.
    HardwareIdentifierMismatch,
    /// The report claims a firmware version bundle newer than the one the
    /// leaf certificate endorses.
    FirmwareVersionMismatch,
}

/// Failure to obtain a leaf certificate from the key-distribution service.
#[derive(Clone, Copy, Debug, PartialEq, Eq, Structural)]
pub enum FetchError {
    /// The product name is not in the supported set; detected before any
    /// network access.
    UnsupportedProduct,
    /// The request could not be transported to the service.
    Transport,
    /// The service answered with a non-success status.
    BadStatus(u16),
}

/// Failure to load the vendor root bundle.
#[derive(Clone, Copy, Debug, PartialEq, Eq, Structural)]
pub enum BundleError {
    /// The product name is not in the supported set.
    UnsupportedProduct,
    /// The bundled certificates could not be parsed.
    MalformedCertificate,
}

/// The reason a verification was rejected: always the first failing check.
#[derive(Clone, Copy, Debug, PartialEq, Eq, Structural)]
pub enum Reason {
    /// An input failed to parse.
    Parse(ParseError),
    /// A certificate-chain link failed to validate.
    Chain(ChainError),
    /// A report-authentication check failed.
    Auth(AuthError),
    /// The requested product is not supported.
    UnsupportedProduct,
}

/// The single outcome of a verification: no partial state exists.
#[derive(Clone, Copy, Debug, PartialEq, Eq, Structural)]
pub enum VerificationResult {
    /// Every chain and authentication check passed.
    Verified,
    /// Some check failed; the payload names the first failing one.
    Rejected(Reason),
}

} // verus!
