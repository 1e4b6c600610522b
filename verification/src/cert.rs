//! A self-signed certificate for the server of the secure backend.
//!
//! The certificate and its key are made by the `rcgen` crate and handed on
//! as DER bytes; what is done with them is the transport's business.

use vstd::prelude::*;
use vstd::string::StringExecFns;

verus! {

/// The error type of the `rcgen` crate. Nothing is known of a value of it.
#[verifier::external_type_specification]
#[verifier::external_body]
pub struct ExRcgenError(rcgen::Error);

/// A certificate with the private key that signed it, both in DER.
#[derive(Debug)]
pub struct SelfSignedCert {
    /// The certificate, X.509 in DER.
    pub certificate_der: Vec<u8>,
    /// The private key, PKCS#8 in DER.
    pub private_key_der: Vec<u8>,
}

/// The certificate could not be made.
#[derive(Debug)]
pub struct CertificateError {
    /// What `rcgen` reported.
    pub cause: rcgen::Error,
}

/// The names that the server's certificate is valid for. Both are ASCII.
pub fn certificate_names() -> (names: Vec<String>)
    ensures
        names@.len() == 2,
        names@[0]@ == "localhost"@,
        names@[1]@ == "jubliantfourier.net"@,
        forall|i: int|
            0 <= i < names@.len() ==> vstd::utf8::is_ascii_chars(#[trigger] names@[i]@),
{
    proof {
        reveal_strlit("localhost");
        reveal_strlit("jubliantfourier.net");
    }
    let mut names: Vec<String> = Vec::new();
    names.push(String::from_str("localhost"));
    names.push(String::from_str("jubliantfourier.net"));
    names
}

/// Makes a self-signed certificate for `names` with a fresh key pair and
/// gives both in DER: `rcgen::generate_simple_self_signed`, then
/// `Certificate::serialize_der` and `Certificate::serialize_private_key_der`
/// on its result.
///
/// The names must be ASCII: each that is no IP address is written into the
/// certificate as an IA5String, and the writer panics on anything else.
/// The key pair is drawn at random and the signature with it, so of the
/// bytes only this is claimed: neither is empty. The certificate is a DER
/// sequence, whose identifier byte is written before anything can fail,
/// and the key is a PKCS#8 document that holds both halves of the pair.
#[verifier::external_body]
fn self_signed_der(names: Vec<String>) -> (r: Result<(Vec<u8>, Vec<u8>), rcgen::Error>)
    requires
        forall|i: int|
            0 <= i < names@.len() ==> vstd::utf8::is_ascii_chars(#[trigger] names@[i]@),
    ensures
        r matches Ok(pair) ==> pair.0@.len() > 0 && pair.1@.len() > 0,
{
    let cert = rcgen::generate_simple_self_signed(names)?;
    let certificate_der = cert.serialize_der()?;
    Ok((certificate_der, cert.serialize_private_key_der()))
}

/// Use the rcgen crate to make self-signed certs.
///
/// The certificate is valid for the names of `certificate_names`. Each
/// call draws a new key pair, so two calls never agree; what is made of
/// the generator's outcome is what `certified` says. A certificate that is
/// handed out is never empty, and neither is its key.
pub fn generate_self_signed_cert() -> (r: Result<SelfSignedCert, CertificateError>)
    ensures
        r matches Ok(made) ==> made.certificate_der@.len() > 0 && made.private_key_der@.len()
            > 0,
{
    certified(self_signed_der(certificate_names()))
}

/// What is made of the generator's outcome: the certificate and the key as
/// they came, or the generator's error as the cause.
pub open spec fn spec_certified(outcome: Result<(Vec<u8>, Vec<u8>), rcgen::Error>) -> Result<
    SelfSignedCert,
    CertificateError,
> {
    match outcome {
        Ok((certificate_der, private_key_der)) => Ok(
            SelfSignedCert { certificate_der, private_key_der },
        ),
        Err(cause) => Err(CertificateError { cause }),
    }
}

/// Turns the generator's outcome into the library's types. Nothing is
/// dropped or altered: a success keeps both byte strings, the certificate
/// first, and a failure keeps its cause.
pub fn certified(outcome: Result<(Vec<u8>, Vec<u8>), rcgen::Error>) -> (r: Result<
    SelfSignedCert,
    CertificateError,
>)
    ensures
        r == spec_certified(outcome),
        outcome is Ok <==> r is Ok,
        outcome matches Ok(pair) ==> r->Ok_0.certificate_der@ == pair.0@
            && r->Ok_0.private_key_der@ == pair.1@,
{
    match outcome {
        Ok((certificate_der, private_key_der)) => Ok(
            SelfSignedCert { certificate_der, private_key_der },
        ),
        Err(cause) => Err(CertificateError { cause }),
    }
}

} // verus!
