//! Outbound secure-channel establishment: the server proactively opens an
//! encrypted channel to a known agent, resolving the agent's certificate
//! through the identity provider first.

use vstd::prelude::*;
use crate::certificate::{CertCheck, CertVerifier, CertificateManager};
use crate::channel::{Channel, ChannelModel, ChannelRegistry};
use crate::crypto::CipherSuite;
use crate::secure_channel::{HandshakeError, derive_session_key, spec_session_key};

verus! {

/// Why an outbound connection attempt failed.
#[derive(Clone, Copy, PartialEq, Eq, Structural, Debug)]
pub enum ConnectError {
    /// The identity provider knows no certificate for the agent.
    CertificateNotFound,
    /// The handshake itself was refused.
    Handshake(HandshakeError),
}

/// The outbound secure-channel establisher. The symmetric provider is the
/// replaceable `encryption` suite: upgrading the cipher touches no call site.
pub struct SecureChannel {
    pub encryption: CipherSuite,
    pub certificate_manager: CertificateManager,
    pub cert_verifier: CertVerifier,
    pub private_key: Vec<u8>,
}

impl SecureChannel {
    /// The establisher needs a nonempty transport secret and a coherent
    /// certificate store.
    pub open spec fn wf(self) -> bool {
        &&& self.private_key@.len() > 0
        &&& self.certificate_manager.wf()
    }

    /// A fresh establisher: the default cipher suite, an empty certificate
    /// store, an empty trust policy, and a placeholder transport secret that
    /// deployment replaces through `set_private_key`.
    pub fn new() -> (r: Self)
        ensures
            r.wf(),
            r.encryption == CipherSuite::StreamXor,
            r.certificate_manager.certs@.len() == 0,
            r.cert_verifier.trusted@.len() == 0,
    {
        let mut key: Vec<u8> = Vec::new();
        key.push(0x5A);
        SecureChannel {
            encryption: CipherSuite::StreamXor,
            certificate_manager: CertificateManager::new(),
            cert_verifier: CertVerifier::new(),
            private_key: key,
        }
    }

    /// Replaces the transport secret.
    pub fn set_private_key(&mut self, key: Vec<u8>)
        requires
            key@.len() > 0,
        ensures
            final(self).private_key@ == key@,
            final(self).encryption == old(self).encryption,
            final(self).certificate_manager == old(self).certificate_manager,
            final(self).cert_verifier == old(self).cert_verifier,
    {
        self.private_key = key;
    }

    /// Whether an outbound attempt to `agent` passes every gate: the agent
    /// has a certificate on file and the trust policy validates it.
    pub open spec fn spec_accepts(self, agent: u64) -> bool {
        &&& self.certificate_manager.spec_has_cert(agent)
        &&& self.cert_verifier.spec_cert_valid(self.certificate_manager.spec_cert_for(agent))
    }

    /// The model of the channel a successful outbound handshake registers.
    pub open spec fn spec_new_channel(self, agent: u64) -> ChannelModel {
        ChannelModel {
            agent_id: agent,
            suite: self.encryption,
            key: spec_session_key(
                self.private_key@,
                self.certificate_manager.spec_cert_for(agent).public_key,
            ),
            open: true,
            responsive: true,
            outbound: Seq::empty(),
        }
    }

    /// Opens a mutually authenticated encrypted channel to `agent`: resolves
    /// the agent's certificate through the identity provider, validates it
    /// against the trust policy, then registers the new channel, superseding
    /// (and closing) any prior channel for that identity. On failure the
    /// registry is untouched.
    pub fn establish_secure_connection(&self, registry: &mut ChannelRegistry, agent: u64) -> (r:
        Result<u64, ConnectError>)
        requires
            self.wf(),
            old(registry).wf(),
        ensures
            final(registry).wf(),
            (r is Ok) == self.spec_accepts(agent),
            r matches Ok(id) ==> {
                &&& id == agent
                &&& final(registry).spec_has_channel(agent)
                &&& final(registry).spec_channel(agent) == self.spec_new_channel(agent)
                &&& forall|a: u64|
                    a != agent ==> (final(registry).spec_has_channel(a) == old(registry).spec_has_channel(a))
                &&& forall|a: u64|
                    a != agent && old(registry).spec_has_channel(a) ==> final(registry).spec_channel(a) == old(registry).spec_channel(a)
            },
            r is Err ==> {
                &&& forall|a: u64|
                    final(registry).spec_has_channel(a) == old(registry).spec_has_channel(a)
                &&& forall|a: u64|
                    old(registry).spec_has_channel(a) ==> final(registry).spec_channel(a) == old(registry).spec_channel(a)
            },
            r == Err::<u64, ConnectError>(ConnectError::CertificateNotFound)
                <==> !self.certificate_manager.spec_has_cert(agent),
            r == Err::<u64, ConnectError>(ConnectError::Handshake(
                HandshakeError::UntrustedCertificate,
            )) <==> (self.certificate_manager.spec_has_cert(agent)
                && !self.cert_verifier.spec_issuer_known(
                self.certificate_manager.spec_cert_for(agent),
            )),
            r == Err::<u64, ConnectError>(ConnectError::Handshake(HandshakeError::SignatureMismatch))
                <==> (self.certificate_manager.spec_has_cert(agent)
                && self.cert_verifier.spec_issuer_known(
                self.certificate_manager.spec_cert_for(agent),
            ) && !self.cert_verifier.spec_cert_valid(
                self.certificate_manager.spec_cert_for(agent),
            )),
    {
        let cert = match self.certificate_manager.get_agent_cert(agent) {
            None => {
                return Err(ConnectError::CertificateNotFound);
            },
            Some(c) => c,
        };
        match self.cert_verifier.check_certificate(&cert) {
            CertCheck::UnknownIssuer => Err(ConnectError::Handshake(
                HandshakeError::UntrustedCertificate,
            )),
            CertCheck::BadSignature => Err(ConnectError::Handshake(
                HandshakeError::SignatureMismatch,
            )),
            CertCheck::Valid => {
                let key = derive_session_key(&self.private_key, &cert.public_key);
                let channel = Channel {
                    agent_id: agent,
                    suite: self.encryption,
                    key,
                    open: true,
                    responsive: true,
                    outbound: Vec::new(),
                };
                proof {
                    assert(channel@.outbound =~= Seq::<Seq<u8>>::empty());
                    assert(channel@ == self.spec_new_channel(agent));
                }
                let _closed = registry.register(channel);
                Ok(agent)
            },
        }
    }
}

} // verus!
