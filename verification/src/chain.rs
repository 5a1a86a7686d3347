//! The certificate chain model and its validator.
//!
//! The chain is the ordered triple (root, intermediate, leaf). Validation
//! checks, link by link from the root down: the root's self-signature, each
//! link's issuer/subject linkage and signature, and each certificate's
//! validity window against a caller-supplied reference time. An unvalidated
//! chain and a validated one are distinct types, never conflated: the only
//! way to obtain a [`ValidatedChain`] is through [`validate`].

use vstd::prelude::*;

use crate::cert::{
    cert_issued, cert_parses, cert_signs, cert_valid_at, cert_wf, check_cert_issued,
    check_cert_signature, Certificate, CertificateView, LeafCertificate, LeafCertificateView,
};
use crate::errors::{BundleError, ChainError};

verus! {

/// The DER encoding of the vendor's root certificate for a product, as the
/// `sev` crate's builtin bundle carries it; `None` when the bundle cannot
/// be decoded. A fixed constant per product.
pub uninterp spec fn vendor_ark_der(product: Seq<char>) -> Option<Seq<u8>>;

/// The DER encoding of the vendor's intermediate certificate for a product,
/// as the `sev` crate's builtin bundle carries it; `None` when the bundle
/// cannot be decoded. A fixed constant per product.
pub uninterp spec fn vendor_ask_der(product: Seq<char>) -> Option<Seq<u8>>;

/// The single product name the compiled-in root bundle supports.
pub open spec fn supported_product() -> Seq<char> {
    "Genoa"@
}

/// Relies on `sev::certs::snp::builtin::genoa::ark`: the vendor's published
/// root certificate, compiled into the `sev` crate, re-encoded to DER.
#[verifier::external_body]
fn load_genoa_ark() -> (r: Option<Vec<u8>>)
    ensures
        r matches Some(v) ==> vendor_ark_der(supported_product()) == Some(v@),
        r is None ==> vendor_ark_der(supported_product()) is None,
{
    let cert = match sev::certs::snp::builtin::genoa::ark() {
        Ok(c) => c,
        Err(_) => return None,
    };
    match cert.to_der() {
        Ok(d) => Some(d),
        Err(_) => None,
    }
}

/// Relies on `sev::certs::snp::builtin::genoa::ask`: the vendor's published
/// intermediate certificate, compiled into the `sev` crate, re-encoded to
/// DER.
#[verifier::external_body]
fn load_genoa_ask() -> (r: Option<Vec<u8>>)
    ensures
        r matches Some(v) ==> vendor_ask_der(supported_product()) == Some(v@),
        r is None ==> vendor_ask_der(supported_product()) is None,
{
    let cert = match sev::certs::snp::builtin::genoa::ask() {
        Ok(c) => c,
        Err(_) => return None,
    };
    match cert.to_der() {
        Ok(d) => Some(d),
        Err(_) => None,
    }
}

/// Decide whether the product name is the single supported one.
pub fn product_supported(product: &str) -> (r: bool)
    ensures
        r == (product@ == supported_product()),
{
    proof {
        reveal_strlit("Genoa");
    }
    if product.unicode_len() != 5 {
        return false;
    }
    let r = product.get_char(0) == 'G' && product.get_char(1) == 'e' && product.get_char(2) == 'n'
        && product.get_char(3) == 'o' && product.get_char(4) == 'a';
    proof {
        if r {
            assert(product@ =~= supported_product());
        }
    }
    r
}

/// The mathematical value of the upper chain: root and intermediate.
pub struct CaChainView {
    /// The vendor root certificate.
    pub ark: CertificateView,
    /// The vendor intermediate certificate.
    pub ask: CertificateView,
}

/// The upper chain: the vendor's root and intermediate certificates.
pub struct CaChain {
    /// The vendor root certificate.
    pub ark: Certificate,
    /// The vendor intermediate certificate.
    pub ask: Certificate,
}

impl View for CaChain {
    type V = CaChainView;

    open spec fn view(&self) -> CaChainView {
        CaChainView { ark: self.ark@, ask: self.ask@ }
    }
}

/// Whether the builtin bundle for the supported product decodes and both of
/// its certificates parse.
pub open spec fn vendor_bundle_ok() -> bool {
    &&& vendor_ark_der(supported_product()) matches Some(d) && cert_parses(d)
    &&& vendor_ask_der(supported_product()) matches Some(d) && cert_parses(d)
}

/// Load the vendor's root bundle for a product: the pair (root,
/// intermediate) compiled into the `sev` crate. Fails with
/// `UnsupportedProduct` exactly when the product is not the supported one,
/// and with `MalformedCertificate` when the bundle cannot be decoded.
pub fn get_cert_chain(sev_prod_name: &str) -> (r: Result<CaChain, BundleError>)
    ensures
        r is Ok <==> sev_prod_name@ == supported_product() && vendor_bundle_ok(),
        r matches Ok(ca) ==> {
            &&& cert_wf(ca.ark@)
            &&& cert_wf(ca.ask@)
            &&& Some(ca.ark@.der) == vendor_ark_der(supported_product())
            &&& Some(ca.ask@.der) == vendor_ask_der(supported_product())
        },
        r matches Err(e) ==> (e == BundleError::UnsupportedProduct <==> sev_prod_name@
            != supported_product()),
{
    if !product_supported(sev_prod_name) {
        return Err(BundleError::UnsupportedProduct);
    }
    let ark_der = match load_genoa_ark() {
        Some(v) => v,
        None => return Err(BundleError::MalformedCertificate),
    };
    let ask_der = match load_genoa_ask() {
        Some(v) => v,
        None => return Err(BundleError::MalformedCertificate),
    };
    let ark = match Certificate::from_der(ark_der) {
        Ok(c) => c,
        Err(_) => return Err(BundleError::MalformedCertificate),
    };
    let ask = match Certificate::from_der(ask_der) {
        Ok(c) => c,
        Err(_) => return Err(BundleError::MalformedCertificate),
    };
    Ok(CaChain { ark, ask })
}

/// The mathematical value of the full chain: root, intermediate, leaf.
pub struct ChainView {
    /// The upper chain.
    pub ca: CaChainView,
    /// The leaf certificate.
    pub vcek: LeafCertificateView,
}

/// The full, not yet validated chain: root, intermediate and leaf.
pub struct Chain {
    /// The upper chain.
    pub ca: CaChain,
    /// The leaf certificate.
    pub vcek: LeafCertificate,
}

impl View for Chain {
    type V = ChainView;

    open spec fn view(&self) -> ChainView {
        ChainView { ca: self.ca@, vcek: self.vcek@ }
    }
}

/// One link of the chain holds when the issuer/subject names link and the
/// issuer's key verifies the subject's signature.
pub open spec fn link_ok(issuer: CertificateView, subject: CertificateView) -> bool {
    cert_issued(issuer.der, subject.der) && cert_signs(issuer.der, subject.der)
}

/// The outcome of validating a chain at reference time `at`: the first
/// failing check's error, or `Ok` when every check passes.
pub open spec fn chain_result(c: ChainView, at: int) -> Result<(), ChainError> {
    if !link_ok(c.ca.ark, c.ca.ark) {
        Err(ChainError::RootSelfSignFailed)
    } else if !cert_valid_at(c.ca.ark, at) {
        Err(ChainError::ValidityExpired)
    } else if !link_ok(c.ca.ark, c.ca.ask) {
        Err(ChainError::IntermediateSignatureInvalid)
    } else if !cert_valid_at(c.ca.ask, at) {
        Err(ChainError::ValidityExpired)
    } else if !link_ok(c.ca.ask, c.vcek.cert) {
        Err(ChainError::LeafSignatureInvalid)
    } else if !cert_valid_at(c.vcek.cert, at) {
        Err(ChainError::ValidityExpired)
    } else {
        Ok(())
    }
}

/// A chain every check of which passed at some reference time. The only
/// constructor is [`validate`], so holding a value of this type is holding
/// evidence that the chain validated.
pub struct ValidatedChain {
    chain: Chain,
    at: Ghost<int>,
}

impl ValidatedChain {
    /// The certificates this evidence is about.
    pub closed spec fn chain_view(&self) -> ChainView {
        self.chain@
    }

    /// The reference time the chain was validated at.
    pub closed spec fn at(&self) -> int {
        self.at@
    }

    /// Every check of [`chain_result`] passed at the recorded time.
    pub open spec fn wf(&self) -> bool {
        chain_result(self.chain_view(), self.at()) is Ok
    }

    /// The leaf certificate the chain endorses.
    pub fn leaf(&self) -> (r: &LeafCertificate)
        ensures
            r@ == self.chain_view().vcek,
    {
        &self.chain.vcek
    }
}

/// Validate the chain bottom-up at reference time `at`: root self-signature,
/// root-to-intermediate link, intermediate-to-leaf link, and each
/// certificate's validity window. The result is exactly the first failing
/// check's error; no partial trust exists.
pub fn validate(chain: Chain, at: i64) -> (r: Result<ValidatedChain, ChainError>)
    ensures
        r matches Ok(vc) ==> vc.chain_view() == chain@ && vc.at() == at as int && vc.wf(),
        r matches Err(e) ==> chain_result(chain@, at as int) == Err::<(), ChainError>(e),
        r is Ok <==> chain_result(chain@, at as int) is Ok,
{
    if !(check_cert_issued(&chain.ca.ark.der, &chain.ca.ark.der) && check_cert_signature(
        &chain.ca.ark.der,
        &chain.ca.ark.der,
    )) {
        return Err(ChainError::RootSelfSignFailed);
    }
    if !chain.ca.ark.valid_at(at) {
        return Err(ChainError::ValidityExpired);
    }
    if !(check_cert_issued(&chain.ca.ark.der, &chain.ca.ask.der) && check_cert_signature(
        &chain.ca.ark.der,
        &chain.ca.ask.der,
    )) {
        return Err(ChainError::IntermediateSignatureInvalid);
    }
    if !chain.ca.ask.valid_at(at) {
        return Err(ChainError::ValidityExpired);
    }
    if !(check_cert_issued(&chain.ca.ask.der, &chain.vcek.cert.der) && check_cert_signature(
        &chain.ca.ask.der,
        &chain.vcek.cert.der,
    )) {
        return Err(ChainError::LeafSignatureInvalid);
    }
    if !chain.vcek.cert.valid_at(at) {
        return Err(ChainError::ValidityExpired);
    }
    Ok(ValidatedChain { chain, at: Ghost(at as int) })
}

/// For any chain whose root checks pass but whose intermediate signature
/// does not verify against the root's public key, validation rejects it
/// with `IntermediateSignatureInvalid` — whatever the leaf certificate, and
/// so whatever report it might endorse, looks like.
pub proof fn lemma_bad_intermediate_rejected(c: ChainView, at: int)
    requires
        link_ok(c.ca.ark, c.ca.ark),
        cert_valid_at(c.ca.ark, at),
        !cert_signs(c.ca.ark.der, c.ca.ask.der),
    ensures
        chain_result(c, at) == Err::<(), ChainError>(ChainError::IntermediateSignatureInvalid),
{
}

} // verus!
