//! The first signer of a PKCS#7 signature block and the MD5 digest of its
//! certificate, computed by the `openssl` crate.

use openssl::error::ErrorStack;
use openssl::hash::MessageDigest;
use openssl::pkcs7::Pkcs7;
use openssl::pkcs7::Pkcs7Flags;
use openssl::stack::Stack;
use openssl::x509::X509Ref;
use openssl::x509::X509;
use vstd::prelude::*;

verus! {

/// The PKCS#7 structure of the `openssl` crate.
#[verifier::external_type_specification]
#[verifier::external_body]
pub struct ExPkcs7(Pkcs7);

/// The borrowed certificate of the `openssl` crate.
#[verifier::external_type_specification]
#[verifier::external_body]
pub struct ExX509Ref(X509Ref);

/// The error of the `openssl` crate.
#[verifier::external_type_specification]
#[verifier::external_body]
pub struct ExErrorStack(ErrorStack);

/// A stack of certificates of the `openssl` crate, `Stack<X509>`. What it
/// holds is known through `stack_certificates` alone.
#[verifier::external_body]
pub struct CertStack {
    stack: Stack<X509>,
}

/// The structure that `openssl::pkcs7::Pkcs7::from_der` reads from `der`;
/// `None` where it reports an error.
pub uninterp spec fn pkcs7_from_der(der: Seq<u8>) -> Option<Pkcs7>;

/// The certificates that a stack holds, from its bottom up.
pub uninterp spec fn stack_certificates(stack: CertStack) -> Seq<X509Ref>;

/// The certificates that `openssl::pkcs7::Pkcs7Ref::signers` finds for the
/// signers of `pkcs7`, in the order of the signers, when it is given the
/// certificates `extra` to look in first and the flag bits `flags`; `None`
/// where it reports an error.
pub uninterp spec fn pkcs7_signers(pkcs7: Pkcs7, extra: Seq<X509Ref>, flags: i32) -> Option<
    Seq<X509Ref>,
>;

/// The DER representation of a certificate.
pub uninterp spec fn certificate_der(certificate: X509Ref) -> Seq<u8>;

/// The MD5 digest of `data`, as `openssl::x509::X509Ref::digest` computes
/// it over the DER representation of a certificate.
pub uninterp spec fn md5(data: Seq<u8>) -> Seq<u8>;

/// `openssl::pkcs7::Pkcs7::from_der`: the structure read from `der`, or the
/// error of the parse. The result depends on the bytes alone.
#[verifier::external_body]
fn parse_pkcs7(der: &[u8]) -> (r: Result<Pkcs7, ErrorStack>)
    ensures
        match r {
            Ok(pkcs7) => pkcs7_from_der(der@) == Some(pkcs7),
            Err(_) => pkcs7_from_der(der@) is None,
        },
{
    Pkcs7::from_der(der)
}

/// `openssl::stack::Stack::new`: a stack that holds nothing, or the error of
/// its allocation.
#[verifier::external_body]
fn new_cert_stack() -> (r: Result<CertStack, ErrorStack>)
    ensures
        r matches Ok(stack) ==> stack_certificates(stack) == Seq::<X509Ref>::empty(),
{
    Stack::new().map(|stack| CertStack { stack })
}

/// `openssl::pkcs7::Pkcs7Ref::signers`: the certificates of the signers, or
/// the error of the lookup. The result depends on the structure, on the
/// certificates handed in and on the flags alone.
#[verifier::external_body]
fn signers_of(pkcs7: &Pkcs7, extra: &CertStack, flags: i32) -> (r: Result<CertStack, ErrorStack>)
    ensures
        match r {
            Ok(signers) => pkcs7_signers(*pkcs7, stack_certificates(*extra), flags) == Some(
                stack_certificates(signers),
            ),
            Err(_) => pkcs7_signers(*pkcs7, stack_certificates(*extra), flags) is None,
        },
{
    pkcs7.signers(&extra.stack, Pkcs7Flags::from_bits_retain(flags)).map(|stack| CertStack { stack })
}

/// `openssl::stack::StackRef::get`: the certificate at `index`, or `None`
/// where the stack holds no more than `index` certificates.
#[verifier::external_body]
fn certificate_at(stack: &CertStack, index: usize) -> (r: Option<&X509Ref>)
    ensures
        match r {
            Some(certificate) => index < stack_certificates(*stack).len() && *certificate
                == stack_certificates(*stack)[index as int],
            None => index >= stack_certificates(*stack).len(),
        },
{
    stack.stack.get(index)
}

/// `openssl::x509::X509Ref::digest` with `MessageDigest::md5()`: the MD5
/// digest of the DER representation of the certificate, or the error of the
/// digest, which the configuration of the OpenSSL library may refuse.
#[verifier::external_body]
fn md5_of(certificate: &X509Ref) -> (r: Result<Vec<u8>, ErrorStack>)
    ensures
        r matches Ok(digest) ==> digest@ == md5(certificate_der(*certificate)),
{
    certificate.digest(MessageDigest::md5()).map(|digest| digest.to_vec())
}

/// The flag bits handed to the lookup of the signers: `PKCS7_STREAM`.
pub const PKCS7_STREAM: i32 = 0x1000;

/// Why no digest of a signer's certificate was computed.
#[derive(Clone, Copy, Debug, PartialEq, Eq, Structural)]
pub enum Pkcs7Error {
    /// The block is not a DER-encoded PKCS#7 structure.
    Parse,
    /// No stack of certificates could be allocated.
    CertStack,
    /// The structure is not signed, names no signer, or lacks the
    /// certificate of one of its signers.
    Signers,
    /// The list of signers is empty.
    NoSigner,
    /// The digest of the certificate was refused.
    Digest,
}

/// The certificate of the first signer of the PKCS#7 structure in `block`,
/// looked up among the certificates that the structure itself carries.
pub open spec fn first_signer(block: Seq<u8>) -> Result<X509Ref, Pkcs7Error> {
    match pkcs7_from_der(block) {
        None => Err(Pkcs7Error::Parse),
        Some(pkcs7) => match pkcs7_signers(pkcs7, Seq::<X509Ref>::empty(), PKCS7_STREAM) {
            None => Err(Pkcs7Error::Signers),
            Some(signers) => if signers.len() == 0 {
                Err(Pkcs7Error::NoSigner)
            } else {
                Ok(signers[0])
            },
        },
    }
}

/// Whether `cause` is an error that the digest of the first signer of
/// `block` may end with. The parse and the lookup of the signers depend on
/// the block alone, and the first of them that fails decides. Whether a
/// stack of certificates can be allocated, and whether MD5 is available, is
/// for the OpenSSL library to say: `CertStack` may come wherever the block
/// parses, `Digest` wherever there is a first signer.
pub open spec fn may_fail_with(block: Seq<u8>, cause: Pkcs7Error) -> bool {
    match first_signer(block) {
        Ok(_) => cause == Pkcs7Error::CertStack || cause == Pkcs7Error::Digest,
        Err(Pkcs7Error::Parse) => cause == Pkcs7Error::Parse,
        Err(e) => cause == e || cause == Pkcs7Error::CertStack,
    }
}

/// The MD5 digest of the certificate of the first signer of the PKCS#7
/// structure in `block`.
///
/// The block is parsed, its signers are looked up among the certificates it
/// carries, and the certificate of the first one is digested. A digest is
/// the digest of that certificate; an error is one that `may_fail_with`
/// allows for the block.
pub fn signer_digest(block: &[u8]) -> (r: Result<Vec<u8>, Pkcs7Error>)
    ensures
        match r {
            Ok(digest) => first_signer(block@) matches Ok(certificate) && digest@ == md5(
                certificate_der(certificate),
            ),
            Err(cause) => may_fail_with(block@, cause),
        },
{
    let pkcs7 = match parse_pkcs7(block) {
        Ok(pkcs7) => pkcs7,
        Err(_) => {
            return Err(Pkcs7Error::Parse);
        },
    };
    let empty = match new_cert_stack() {
        Ok(stack) => stack,
        Err(_) => {
            return Err(Pkcs7Error::CertStack);
        },
    };
    let signers = match signers_of(&pkcs7, &empty, PKCS7_STREAM) {
        Ok(signers) => signers,
        Err(_) => {
            return Err(Pkcs7Error::Signers);
        },
    };
    let certificate = match certificate_at(&signers, 0) {
        Some(certificate) => certificate,
        None => {
            return Err(Pkcs7Error::NoSigner);
        },
    };
    match md5_of(certificate) {
        Ok(digest) => Ok(digest),
        Err(_) => Err(Pkcs7Error::Digest),
    }
}

} // verus!
