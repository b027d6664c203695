use vstd::prelude::*;
use crate::identity::{Identity, SetupError};

verus! {

#[verifier::external_type_specification]
#[verifier::external_body]
pub struct ExTransportConfig(quinn::TransportConfig);

/// quinn's server configuration. quinn declares it generic over its crypto
/// session trait, a bound that cannot be written for Verus, so it is held here.
#[verifier::external_body]
pub struct ListenerConfig {
    pub config: quinn::ServerConfig,
}

/// quinn's client configuration, held for the same reason as `ListenerConfig`.
#[verifier::external_body]
pub struct ConnectorConfig {
    pub config: quinn::ClientConfig,
}

/// One more than the largest stream limit quinn can encode (its variable-length integers hold 62 bits).
pub const STREAM_LIMIT_BOUND: u64 = 0x4000_0000_0000_0000;

/// Whether rustls can load these DER bytes as a private key (PKCS #8 or
/// PKCS #1, of a signature scheme it supports).
pub uninterp spec fn private_key_accepted(key: Seq<u8>) -> bool;

/// The certificate chain, in DER, that a listener configuration presents in the handshake.
pub uninterp spec fn presented_chain(c: ListenerConfig) -> Seq<Seq<u8>>;

/// Whether a listener configuration asks connectors for a certificate.
pub uninterp spec fn asks_client_certificate(c: ListenerConfig) -> bool;

/// The private key, in DER, that a listener configuration signs the handshake with.
pub uninterp spec fn presented_key(c: ListenerConfig) -> Seq<u8>;

/// Whether every setting of a transport policy other than the unidirectional
/// stream limit still has quinn's default value.
pub uninterp spec fn transport_defaults_kept(t: quinn::TransportConfig) -> bool;

/// Whether every transport setting of a listener configuration other than the
/// unidirectional stream limit still has quinn's default value.
pub uninterp spec fn listener_defaults_kept(c: ListenerConfig) -> bool;

/// The number of unidirectional streams a listener configuration lets a peer open.
pub uninterp spec fn listener_uni_limit(c: ListenerConfig) -> u64;

/// The number of unidirectional streams a transport policy lets a peer open.
pub uninterp spec fn transport_uni_limit(t: quinn::TransportConfig) -> u64;

/// Whether quinn takes these DER bytes as a trust anchor (a parsable X.509 certificate).
pub uninterp spec fn authority_accepted(der: Seq<u8>) -> bool;

/// The roots in a connector configuration's rustls root store, as the DER
/// certificates they were made from, in the order added.
pub uninterp spec fn trusted_authorities(c: ConnectorConfig) -> Seq<Seq<u8>>;

/// Relies on quinn::TransportConfig::default: quinn's default transport policy.
#[verifier::external_body]
fn default_transport() -> (r: quinn::TransportConfig)
    ensures
        transport_defaults_kept(r),
{
    quinn::TransportConfig::default()
}

/// Relies on quinn::TransportConfig::max_concurrent_uni_streams, which accepts
/// exactly the values below 2^62 and then sets that one field to the value.
#[verifier::external_body]
fn limit_uni_streams(t: &mut quinn::TransportConfig, n: u64) -> (r: bool)
    ensures
        r == (n < STREAM_LIMIT_BOUND),
        r ==> transport_uni_limit(*final(t)) == n,
        transport_defaults_kept(*final(t)) == transport_defaults_kept(*old(t)),
{
    t.max_concurrent_uni_streams(n).is_ok()
}

/// Relies on quinn::ServerConfig::default: a server configuration with a fresh
/// random token key, no certificate yet, and rustls's `NoClientAuth`, so that
/// connectors are asked for no certificate.
#[verifier::external_body]
fn default_listener() -> (r: ListenerConfig)
    ensures
        presented_chain(r) == Seq::<Seq<u8>>::empty(),
        !asks_client_certificate(r),
{
    ListenerConfig { config: quinn::ServerConfig::default() }
}

/// Installs a transport policy in quinn's server configuration (its public
/// `transport` field); the crypto settings are left as they were.
#[verifier::external_body]
fn set_transport(c: &mut ListenerConfig, t: quinn::TransportConfig)
    ensures
        listener_uni_limit(*final(c)) == transport_uni_limit(t),
        listener_defaults_kept(*final(c)) == transport_defaults_kept(t),
        presented_chain(*final(c)) == presented_chain(*old(c)),
        presented_key(*final(c)) == presented_key(*old(c)),
        asks_client_certificate(*final(c)) == asks_client_certificate(*old(c)),
{
    c.config.transport = std::sync::Arc::new(t);
}

/// Relies on quinn::ServerConfig::certificate, which hands the chain and key to
/// rustls's set_single_cert: it succeeds exactly where rustls can load the key,
/// and only then replaces the presented chain.
#[verifier::external_body]
fn install_certificate(c: &mut ListenerConfig, cert: &Vec<u8>, key: &Vec<u8>) -> (r: bool)
    ensures
        r == private_key_accepted(key@),
        r ==> presented_chain(*final(c)) == seq![cert@],
        r ==> presented_key(*final(c)) == key@,
        !r ==> presented_chain(*final(c)) == presented_chain(*old(c)),
        !r ==> presented_key(*final(c)) == presented_key(*old(c)),
        listener_uni_limit(*final(c)) == listener_uni_limit(*old(c)),
        listener_defaults_kept(*final(c)) == listener_defaults_kept(*old(c)),
        asks_client_certificate(*final(c)) == asks_client_certificate(*old(c)),
{
    match (quinn::Certificate::from_der(cert), quinn::PrivateKey::from_der(key)) {
        (Ok(cert), Ok(key)) => {
            let chain = quinn::CertificateChain::from_certs(vec![cert]);
            c.config.certificate(chain, key).is_ok()
        },
        _ => false,
    }
}

/// Relies on quinn::ClientConfig::default: built without quinn's `native-certs`
/// feature, its rustls root store starts empty, so it trusts no certificate at all.
#[verifier::external_body]
fn empty_connector() -> (r: ConnectorConfig)
    ensures
        trusted_authorities(r) == Seq::<Seq<u8>>::empty(),
{
    ConnectorConfig { config: quinn::ClientConfig::default() }
}

/// Relies on quinn::ClientConfig::add_certificate_authority: the DER bytes are
/// parsed as a trust anchor and, only where that succeeds, added to the trust set.
#[verifier::external_body]
fn add_authority(c: &mut ConnectorConfig, der: &Vec<u8>) -> (r: bool)
    ensures
        r == authority_accepted(der@),
        trusted_authorities(*final(c)) == if r {
            trusted_authorities(*old(c)).push(der@)
        } else {
            trusted_authorities(*old(c))
        },
{
    match quinn::Certificate::from_der(der) {
        Ok(cert) => c.config.add_certificate_authority(cert).is_ok(),
        Err(_) => false,
    }
}

/// The index of the first certificate not accepted as a trust anchor, if any.
pub open spec fn first_rejected(certs: Seq<Seq<u8>>) -> Option<int>
    decreases certs.len(),
{
    if certs.len() == 0 {
        None
    } else if !authority_accepted(certs[0]) {
        Some(0)
    } else {
        match first_rejected(certs.drop_first()) {
            Some(i) => Some(i + 1),
            None => None,
        }
    }
}

/// The listener's configuration: it presents exactly the identity's certificate
/// and signs with the identity's key, lets peers open no unidirectional stream
/// while every other transport setting keeps quinn's default, and asks
/// connectors for no certificate. It fails exactly where the key cannot be loaded.
pub fn configure_server(identity: &Identity) -> (r: Result<ListenerConfig, SetupError>)
    ensures
        r is Ok == private_key_accepted(identity.private_key@),
        r matches Ok(c) ==> presented_chain(c) == seq![identity.certificate@]
            && presented_key(c) == identity.private_key@,
        r matches Ok(c) ==> listener_uni_limit(c) == 0 && listener_defaults_kept(c)
            && !asks_client_certificate(c),
        r matches Err(e) ==> e == SetupError::ServerCertificate,
{
    let mut transport = default_transport();
    let limited = limit_uni_streams(&mut transport, 0);
    assert(limited);
    let mut config = default_listener();
    set_transport(&mut config, transport);
    if !install_certificate(&mut config, &identity.certificate, &identity.private_key) {
        return Err(SetupError::ServerCertificate);
    }
    Ok(config)
}

/// The connector's configuration: it trusts exactly `server_certs`, in order.
/// The first certificate that is not a well-formed trust anchor is reported by
/// its index.
pub fn configure_client(server_certs: &Vec<Vec<u8>>) -> (r: Result<ConnectorConfig, SetupError>)
    ensures
        match first_rejected(server_certs@.map_values(|c: Vec<u8>| c@)) {
            Some(i) => r == Err::<ConnectorConfig, SetupError>(SetupError::TrustConfig(i as usize)),
            None => r matches Ok(c) && trusted_authorities(c) == server_certs@.map_values(
                |c: Vec<u8>| c@,
            ),
        },
{
    let ghost all = server_certs@.map_values(|c: Vec<u8>| c@);
    let mut config = empty_connector();
    let mut i: usize = 0;
    while i < server_certs.len()
        invariant
            i <= server_certs@.len(),
            all == server_certs@.map_values(|c: Vec<u8>| c@),
            trusted_authorities(config) == all.take(i as int),
            forall|j: int| 0 <= j < i ==> authority_accepted(#[trigger] all[j]),
        decreases server_certs@.len() - i,
    {
        if !add_authority(&mut config, &server_certs[i]) {
            proof {
                lemma_first_rejected_at(all, i as int);
            }
            return Err(SetupError::TrustConfig(i));
        }
        assert(all.take(i as int + 1) =~= all.take(i as int).push(all[i as int]));
        i += 1;
    }
    proof {
        lemma_none_rejected(all);
        assert(all.take(i as int) =~= all);
    }
    Ok(config)
}

proof fn lemma_first_rejected_at(s: Seq<Seq<u8>>, i: int)
    requires
        0 <= i < s.len(),
        !authority_accepted(s[i]),
        forall|j: int| 0 <= j < i ==> authority_accepted(#[trigger] s[j]),
    ensures
        first_rejected(s) == Some(i),
    decreases i,
{
    if i > 0 {
        assert(authority_accepted(s[0]));
        let t = s.drop_first();
        assert forall|j: int| 0 <= j < i - 1 implies authority_accepted(#[trigger] t[j]) by {
            assert(t[j] == s[j + 1]);
        }
        lemma_first_rejected_at(t, i - 1);
    }
}

/// Certificates that are all accepted as trust anchors, such as those of
/// identities from `generate_identity`, leave `configure_client` nothing to
/// reject: it succeeds and the connector trusts exactly them, in order.
pub proof fn lemma_accepted_certificates_trusted(certs: Seq<Vec<u8>>)
    requires
        forall|j: int| 0 <= j < certs.len() ==> authority_accepted(#[trigger] certs[j]@),
    ensures
        first_rejected(certs.map_values(|c: Vec<u8>| c@)) is None,
        certs.len() == 1 ==> certs.map_values(|c: Vec<u8>| c@) == seq![certs[0]@],
{
    let all = certs.map_values(|c: Vec<u8>| c@);
    assert forall|j: int| 0 <= j < all.len() implies authority_accepted(#[trigger] all[j]) by {
        assert(all[j] == certs[j]@);
    }
    lemma_none_rejected(all);
    if certs.len() == 1 {
        assert(all =~= seq![certs[0]@]);
    }
}

proof fn lemma_none_rejected(s: Seq<Seq<u8>>)
    requires
        forall|j: int| 0 <= j < s.len() ==> authority_accepted(#[trigger] s[j]),
    ensures
        first_rejected(s) is None,
    decreases s.len(),
{
    if s.len() > 0 {
        let t = s.drop_first();
        assert forall|j: int| 0 <= j < t.len() implies authority_accepted(#[trigger] t[j]) by {
            assert(t[j] == s[j + 1]);
        }
        lemma_none_rejected(t);
    }
}

} // verus!
