use vstd::prelude::*;
use crate::endpoint::{authority_accepted, private_key_accepted};

verus! {

#[verifier::external_type_specification]
#[verifier::external_body]
pub struct ExRcgenCertificate(rcgen::Certificate);

#[verifier::external_type_specification]
#[verifier::external_body]
pub struct ExRcgenError(rcgen::RcgenError);

/// A listener's self-signed identity: the certificate in DER, its private key
/// in PKCS #8 DER, and the host name the certificate is bound to.
#[derive(Clone, Debug)]
pub struct Identity {
    pub certificate: Vec<u8>,
    pub private_key: Vec<u8>,
    pub host_name: String,
}

/// Why an endpoint configuration could not be built.
#[derive(Clone, Copy, Debug, PartialEq, Eq, Structural)]
pub enum SetupError {
    /// Key or certificate generation failed.
    Identity,
    /// The identity could not be installed for the handshake.
    ServerCertificate,
    /// The trusted certificate at this position is malformed.
    TrustConfig(usize),
}

/// Relies on rcgen::generate_simple_self_signed: fresh key material and a
/// self-signed certificate whose subject alternative name is `host`; and on
/// rcgen::Certificate::serialize_private_key_der for the key pair in DER, which
/// cannot panic here because a freshly generated key pair is never remote. The
/// key is ring's PKCS #8 encoding of an ECDSA P-256 key (rcgen's default
/// algorithm), which rustls loads.
#[verifier::external_body]
fn generate_self_signed(host: &String) -> (r: Result<(rcgen::Certificate, Vec<u8>), rcgen::RcgenError>)
    ensures
        r matches Ok(p) ==> private_key_accepted(p.1@),
{
    match rcgen::generate_simple_self_signed(vec![host.clone()]) {
        Ok(cert) => {
            let key = cert.serialize_private_key_der();
            Ok((cert, key))
        },
        Err(e) => Err(e),
    }
}

/// Relies on rcgen::Certificate::serialize_der: the signed X.509 v3 certificate
/// in DER, which webpki parses as a trust anchor (rcgen's own tests do so).
#[verifier::external_body]
fn certificate_der(c: &rcgen::Certificate) -> (r: Result<Vec<u8>, rcgen::RcgenError>)
    ensures
        r matches Ok(d) ==> authority_accepted(d@),
{
    c.serialize_der()
}

/// Generates a fresh self-signed identity bound to `host_name`. Each call makes
/// new key material; a failure of the generator is returned as `Identity`. The
/// key can be installed in a listener and the certificate trusted by a connector.
pub fn generate_identity(host_name: &String) -> (r: Result<Identity, SetupError>)
    ensures
        r matches Ok(id) ==> id.host_name@ == host_name@,
        r matches Ok(id) ==> private_key_accepted(id.private_key@),
        r matches Ok(id) ==> authority_accepted(id.certificate@),
        r matches Err(e) ==> e == SetupError::Identity,
{
    let (cert, key) = match generate_self_signed(host_name) {
        Ok(pair) => pair,
        Err(_) => return Err(SetupError::Identity),
    };
    let der = match certificate_der(&cert) {
        Ok(d) => d,
        Err(_) => return Err(SetupError::Identity),
    };
    Ok(Identity { certificate: der, private_key: key, host_name: host_name.clone() })
}

} // verus!
