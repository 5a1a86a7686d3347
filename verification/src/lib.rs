//! Verification of AMD SEV-SNP attestation reports.
//!
//! The crate validates the vendor certificate chain (ARK -> ASK -> VCEK) and
//! authenticates an attestation report against the now-trusted VCEK: the
//! report's signature, its hardware identifier and its claimed firmware
//! version bundle are all checked against the values the leaf certificate
//! endorses. Cryptographic primitives and X.509 handling come from the
//! `openssl` and `sev` crates behind narrow trusted wrappers; everything
//! around them is verified.

pub mod auth;
pub mod cert;
pub mod chain;
pub mod errors;
pub mod kds;
pub mod report;
pub mod tcb;
pub mod verify;
