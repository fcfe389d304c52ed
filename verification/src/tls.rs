use vstd::prelude::*;

use crate::certified::generate_self_signed;
pub use crate::certified::SelfSignedPem;

verus! {

/// Declares the `rcgen` crate's error type to the verifier; it stays opaque.
#[verifier::external_type_specification]
#[verifier::external_body]
pub struct ExRcgenError(rcgen::Error);

/// Calls `ToString::to_string` on an `rcgen` error (its `Display` text).
/// Nothing is claimed about the text.
#[verifier::external_body]
fn describe_certificate_error(error: &rcgen::Error) -> String {
    error.to_string()
}

/// Why no certificate could be made.
#[derive(Debug)]
pub struct CertificateError {
    pub description: String,
}

/// The names the server's certificate covers: `localhost`, the loopback
/// address, and the server's address on the local network.
pub fn certificate_names(local_ip: &str) -> (names: Vec<String>)
    ensures
        names@.len() == 3,
        names@[0]@ == "localhost"@,
        names@[1]@ == "127.0.0.1"@,
        names@[2]@ == local_ip@,
{
    let mut names: Vec<String> = Vec::new();
    names.push(String::from_str("localhost"));
    names.push(String::from_str("127.0.0.1"));
    names.push(String::from_str(local_ip));
    names
}

/// A fresh self-signed certificate for [`certificate_names`] of `local_ip`,
/// with its key, for serving HTTPS on the local network: the certificate
/// covers exactly `localhost`, `127.0.0.1` and `local_ip`. It fails when
/// `local_ip` is not ASCII, as no certificate can name it. The key is
/// random, so the contract says nothing about the documents' text.
pub fn self_signed_pem(local_ip: &str) -> (made: Result<SelfSignedPem, CertificateError>)
    ensures
        !vstd::utf8::is_ascii_chars(local_ip@) ==> made is Err,
        made matches Ok(pem) ==> {
            &&& pem.covers().len() == 3
            &&& pem.covers()[0]@ == "localhost"@
            &&& pem.covers()[1]@ == "127.0.0.1"@
            &&& pem.covers()[2]@ == local_ip@
        },
{
    let names = certificate_names(local_ip);
    proof {
        assert(!vstd::utf8::is_ascii_chars(local_ip@) ==> !vstd::utf8::is_ascii_chars(names@[2]@));
    }
    match generate_self_signed(names) {
        Ok(pem) => Ok(pem),
        Err(error) => Err(CertificateError { description: describe_certificate_error(&error) }),
    }
}

} // verus!
