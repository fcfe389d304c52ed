use vstd::prelude::*;

verus! {

/// A self-signed certificate and its private key, both in PEM form. Only
/// [`generate_self_signed`] makes one, so the names it records are the
/// names the certificate was issued for.
#[derive(Debug)]
pub struct SelfSignedPem {
    pub cert_pem: String,
    pub key_pem: String,
    subject_names: Vec<String>,
}

impl SelfSignedPem {
    /// The subject alternative names the certificate was issued for.
    pub closed spec fn covers(&self) -> Seq<String> {
        self.subject_names@
    }
}

/// Calls `rcgen::generate_simple_self_signed` with `names` as subject
/// alternative names and returns the certificate and its freshly generated
/// key pair in PEM form (`Certificate::pem`, `KeyPair::serialize_pem`),
/// recording the names it passed. Claims that the certificate covers those
/// names, and that the call fails when some name is not ASCII: such a name
/// is no IP address, and the crate refuses it as a DNS name. The key is
/// random, so nothing is claimed about the documents' text, nor that the
/// call succeeds on ASCII names.
#[verifier::external_body]
pub(crate) fn generate_self_signed(names: Vec<String>) -> (made: Result<SelfSignedPem, rcgen::Error>)
    ensures
        (exists|i: int| 0 <= i < names@.len() && !vstd::utf8::is_ascii_chars(#[trigger] names@[i]@))
            ==> made is Err,
        made matches Ok(pem) ==> pem.covers() == names@,
{
    let certified = rcgen::generate_simple_self_signed(&names[..])?;
    Ok(SelfSignedPem {
        cert_pem: certified.cert.pem(),
        key_pem: certified.key_pair.serialize_pem(),
        subject_names: names,
    })
}

} // verus!
