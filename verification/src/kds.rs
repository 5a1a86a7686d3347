//! The leaf-certificate locator's computational half.
//!
//! The key-distribution service maps a (hardware identifier, firmware
//! version bundle, product) triple deterministically to one leaf
//! certificate, addressed by a URL that carries the identifier in
//! lowercase hex and each firmware counter as a zero-padded decimal.
//! Forming that request is pure computation and is verified here, down to
//! the bytes of the URL; performing the fetch is I/O and stays with the
//! caller. An unsupported product is refused before any request exists.

use vstd::prelude::*;

use crate::chain::{product_supported, supported_product};
use crate::errors::FetchError;
use crate::tcb::TcbVersion;
use vstd::string::StringSliceAdditionalSpecFns;

verus! {

/// The ASCII code of the hex digit for `n`.
pub open spec fn hex_digit(n: int) -> u8 {
    if n < 10 {
        (48 + n) as u8
    } else {
        (87 + n) as u8
    }
}

/// The ASCII code of the decimal digit for `n`.
pub open spec fn dec_digit(n: int) -> u8 {
    (48 + n) as u8
}

/// Lowercase hex of one byte: two digits, high nibble first.
pub open spec fn hex_byte(b: u8) -> Seq<u8> {
    seq![hex_digit(b as int / 16), hex_digit(b as int % 16)]
}

/// Lowercase hex of a byte string, two digits per byte.
pub open spec fn hex_of(bytes: Seq<u8>) -> Seq<u8>
    decreases bytes.len(),
{
    if bytes.len() == 0 {
        Seq::empty()
    } else {
        hex_of(bytes.drop_last()) + hex_byte(bytes.last())
    }
}

/// Decimal of a byte, zero-padded to at least two digits.
pub open spec fn dec_pad2(n: u8) -> Seq<u8> {
    if n < 100 {
        seq![dec_digit(n as int / 10), dec_digit(n as int % 10)]
    } else {
        seq![
            dec_digit(n as int / 100),
            dec_digit((n as int / 10) % 10),
            dec_digit(n as int % 10),
        ]
    }
}

/// The fixed scheme, host and path under which the service issues leaf
/// certificates.
pub open spec fn url_prefix() -> Seq<u8> {
    seq![
        'h' as u8, 't' as u8, 't' as u8, 'p' as u8, 's' as u8, ':' as u8, '/' as u8, '/' as u8,
        'k' as u8, 'd' as u8, 's' as u8, 'i' as u8, 'n' as u8, 't' as u8, 'f' as u8, '.' as u8,
        'a' as u8, 'm' as u8, 'd' as u8, '.' as u8, 'c' as u8, 'o' as u8, 'm' as u8, '/' as u8,
        'v' as u8, 'c' as u8, 'e' as u8, 'k' as u8, '/' as u8, 'v' as u8, '1' as u8, '/' as u8,
    ]
}

/// The query parameter naming the bootloader counter.
pub open spec fn param_bl() -> Seq<u8> {
    seq!['?' as u8, 'b' as u8, 'l' as u8, 'S' as u8, 'P' as u8, 'L' as u8, '=' as u8]
}

/// The query parameter naming the secure-processor OS counter.
pub open spec fn param_tee() -> Seq<u8> {
    seq!['&' as u8, 't' as u8, 'e' as u8, 'e' as u8, 'S' as u8, 'P' as u8, 'L' as u8, '=' as u8]
}

/// The query parameter naming the SNP firmware counter.
pub open spec fn param_snp() -> Seq<u8> {
    seq!['&' as u8, 's' as u8, 'n' as u8, 'p' as u8, 'S' as u8, 'P' as u8, 'L' as u8, '=' as u8]
}

/// The query parameter naming the microcode counter.
pub open spec fn param_ucode() -> Seq<u8> {
    seq![
        '&' as u8, 'u' as u8, 'c' as u8, 'o' as u8, 'd' as u8, 'e' as u8, 'S' as u8, 'P' as u8,
        'L' as u8, '=' as u8,
    ]
}

/// The full request URL for the leaf certificate of one (product,
/// hardware identifier, firmware bundle) triple.
pub open spec fn vcek_url_bytes(product: Seq<u8>, chip_id: Seq<u8>, tcb: TcbVersion) -> Seq<u8> {
    url_prefix() + product + seq!['/' as u8] + hex_of(chip_id) + param_bl() + dec_pad2(
        tcb.bootloader,
    ) + param_tee() + dec_pad2(tcb.tee) + param_snp() + dec_pad2(tcb.snp) + param_ucode()
        + dec_pad2(tcb.microcode)
}

/// The hex digit for a nibble.
fn hex_digit_ex(n: u8) -> (r: u8)
    requires
        n < 16,
    ensures
        r == hex_digit(n as int),
{
    if n < 10 {
        48 + n
    } else {
        87 + n
    }
}

/// Append the lowercase hex of `bytes`, two digits per byte.
pub fn push_hex(out: &mut Vec<u8>, bytes: &Vec<u8>)
    ensures
        final(out)@ == old(out)@ + hex_of(bytes@),
{
    let n: usize = bytes.len();
    let mut i: usize = 0;
    while i < n
        invariant
            i <= n,
            n == bytes@.len(),
            out@ == old(out)@ + hex_of(bytes@.subrange(0, i as int)),
        decreases n - i,
    {
        let b = bytes[i];
        out.push(hex_digit_ex(b / 16));
        out.push(hex_digit_ex(b % 16));
        proof {
            let pre = bytes@.subrange(0, i as int);
            let cur = bytes@.subrange(0, i + 1);
            assert(cur.drop_last() =~= pre);
            assert(cur.last() == bytes@[i as int]);
            assert(out@ =~= old(out)@ + hex_of(cur));
        }
        i = i + 1;
    }
    proof {
        assert(bytes@.subrange(0, bytes@.len() as int) =~= bytes@);
    }
}

/// Append the zero-padded decimal of `n`.
fn push_dec2(out: &mut Vec<u8>, n: u8)
    ensures
        final(out)@ == old(out)@ + dec_pad2(n),
{
    if n < 100 {
        out.push(48 + n / 10);
        out.push(48 + n % 10);
        proof {
            assert(out@ =~= old(out)@ + dec_pad2(n));
        }
    } else {
        out.push(48 + n / 100);
        out.push(48 + (n / 10) % 10);
        out.push(48 + n % 10);
        proof {
            assert(out@ =~= old(out)@ + dec_pad2(n));
        }
    }
}

/// Lowercase hex of a byte string, as its ASCII bytes.
pub fn hex_encode(bytes: &Vec<u8>) -> (r: Vec<u8>)
    ensures
        r@ == hex_of(bytes@),
{
    let mut out: Vec<u8> = Vec::new();
    push_hex(&mut out, bytes);
    proof {
        assert(out@ =~= hex_of(bytes@));
    }
    out
}

/// Form the service URL for the leaf certificate of one (hardware
/// identifier, firmware bundle, product) triple, as ASCII bytes. Fails
/// with `UnsupportedProduct` exactly when the product is not the supported
/// one — before any request exists, so no network access can precede the
/// check.
pub fn vcek_request_url(chip_id: &Vec<u8>, tcb: &TcbVersion, product: &str) -> (r: Result<
    Vec<u8>,
    FetchError,
>)
    requires
        chip_id@.len() == 64,
    ensures
        r is Ok <==> product@ == supported_product(),
        r matches Ok(url) ==> url@ == vcek_url_bytes(product.spec_bytes(), chip_id@, *tcb),
        r matches Err(e) ==> e == FetchError::UnsupportedProduct,
{
    if !product_supported(product) {
        return Err(FetchError::UnsupportedProduct);
    }
    let mut url: Vec<u8> = Vec::new();
    push_prefix(&mut url);
    push_slice(&mut url, product.as_bytes());
    url.push('/' as u8);
    let ghost head = url_prefix() + product.spec_bytes() + seq!['/' as u8];
    proof {
        assert(url@ =~= head);
    }
    push_hex(&mut url, chip_id);
    push_param_bl(&mut url);
    push_dec2(&mut url, tcb.bootloader);
    push_param_tee(&mut url);
    push_dec2(&mut url, tcb.tee);
    push_param_snp(&mut url);
    push_dec2(&mut url, tcb.snp);
    push_param_ucode(&mut url);
    push_dec2(&mut url, tcb.microcode);
    proof {
        assert(url@ =~= vcek_url_bytes(product.spec_bytes(), chip_id@, *tcb));
    }
    Ok(url)
}

/// Append a byte slice.
fn push_slice(out: &mut Vec<u8>, s: &[u8])
    ensures
        final(out)@ == old(out)@ + s@,
{
    let n: usize = s.len();
    let mut i: usize = 0;
    while i < n
        invariant
            i <= n,
            n == s@.len(),
            out@ == old(out)@ + s@.subrange(0, i as int),
        decreases n - i,
    {
        out.push(s[i]);
        proof {
            assert(out@ =~= old(out)@ + s@.subrange(0, i + 1));
        }
        i = i + 1;
    }
    proof {
        assert(s@.subrange(0, s@.len() as int) =~= s@);
    }
}

/// Append the fixed scheme, host and path.
fn push_prefix(out: &mut Vec<u8>)
    ensures
        final(out)@ == old(out)@ + url_prefix(),
{
    out.push('h' as u8);
    out.push('t' as u8);
    out.push('t' as u8);
    out.push('p' as u8);
    out.push('s' as u8);
    out.push(':' as u8);
    out.push('/' as u8);
    out.push('/' as u8);
    out.push('k' as u8);
    out.push('d' as u8);
    out.push('s' as u8);
    out.push('i' as u8);
    out.push('n' as u8);
    out.push('t' as u8);
    out.push('f' as u8);
    out.push('.' as u8);
    out.push('a' as u8);
    out.push('m' as u8);
    out.push('d' as u8);
    out.push('.' as u8);
    out.push('c' as u8);
    out.push('o' as u8);
    out.push('m' as u8);
    out.push('/' as u8);
    out.push('v' as u8);
    out.push('c' as u8);
    out.push('e' as u8);
    out.push('k' as u8);
    out.push('/' as u8);
    out.push('v' as u8);
    out.push('1' as u8);
    out.push('/' as u8);
    proof {
        assert(out@ =~= old(out)@ + url_prefix());
    }
}

/// Append the bootloader query parameter name.
fn push_param_bl(out: &mut Vec<u8>)
    ensures
        final(out)@ == old(out)@ + param_bl(),
{
    out.push('?' as u8);
    out.push('b' as u8);
    out.push('l' as u8);
    out.push('S' as u8);
    out.push('P' as u8);
    out.push('L' as u8);
    out.push('=' as u8);
    proof {
        assert(out@ =~= old(out)@ + param_bl());
    }
}

/// Append the secure-processor OS query parameter name.
fn push_param_tee(out: &mut Vec<u8>)
    ensures
        final(out)@ == old(out)@ + param_tee(),
{
    out.push('&' as u8);
    out.push('t' as u8);
    out.push('e' as u8);
    out.push('e' as u8);
    out.push('S' as u8);
    out.push('P' as u8);
    out.push('L' as u8);
    out.push('=' as u8);
    proof {
        assert(out@ =~= old(out)@ + param_tee());
    }
}

/// Append the SNP firmware query parameter name.
fn push_param_snp(out: &mut Vec<u8>)
    ensures
        final(out)@ == old(out)@ + param_snp(),
{
    out.push('&' as u8);
    out.push('s' as u8);
    out.push('n' as u8);
    out.push('p' as u8);
    out.push('S' as u8);
    out.push('P' as u8);
    out.push('L' as u8);
    out.push('=' as u8);
    proof {
        assert(out@ =~= old(out)@ + param_snp());
    }
}

/// Append the microcode query parameter name.
fn push_param_ucode(out: &mut Vec<u8>)
    ensures
        final(out)@ == old(out)@ + param_ucode(),
{
    out.push('&' as u8);
    out.push('u' as u8);
    out.push('c' as u8);
    out.push('o' as u8);
    out.push('d' as u8);
    out.push('e' as u8);
    out.push('S' as u8);
    out.push('P' as u8);
    out.push('L' as u8);
    out.push('=' as u8);
    proof {
        assert(out@ =~= old(out)@ + param_ucode());
    }
}

/// Two requests formed from the same hardware identifier, firmware bundle
/// and product are byte-for-byte the same URL: the library's half of the
/// locator's idempotence. The service's half — that one URL maps to one
/// certificate — is the vendor's documented behaviour and is exercised by
/// tests, not proved here.
pub proof fn lemma_fetch_request_deterministic(
    p1: Seq<u8>,
    c1: Seq<u8>,
    t1: TcbVersion,
    p2: Seq<u8>,
    c2: Seq<u8>,
    t2: TcbVersion,
)
    requires
        p1 == p2,
        c1 == c2,
        t1 == t2,
    ensures
        vcek_url_bytes(p1, c1, t1) == vcek_url_bytes(p2, c2, t2),
{
}

} // verus!
