//! Inbound secure-channel establishment: the mutual-authentication handshake
//! for connections that agents open towards the server.

use vstd::prelude::*;
use crate::certificate::{Certificate, CertCheck, CertVerifier, copy_bytes};
use crate::channel::{Channel, ChannelModel, ChannelRegistry};
use crate::crypto::CipherSuite;

verus! {

/// The protocol version this core speaks.
pub const PROTOCOL_VERSION: u16 = 3;

/// Why a handshake was refused. Fatal to that connection attempt; the
/// transport is torn down and nothing is registered.
#[derive(Clone, Copy, PartialEq, Eq, Structural, Debug)]
pub enum HandshakeError {
    /// No trust anchor knows the peer certificate's issuer.
    UntrustedCertificate,
    /// The issuer is known but the certificate's signature does not match.
    SignatureMismatch,
    /// The peer speaks another protocol version.
    VersionMismatch,
    /// The handshake did not finish within its deadline.
    Timeout,
}

/// What the transport layer hands over from one inbound connection attempt:
/// the peer's claimed protocol version, the certificate it presented, and
/// whether the handshake deadline had already passed.
#[derive(Debug)]
pub struct PeerHello {
    pub version: u16,
    pub cert: Certificate,
    pub deadline_exceeded: bool,
}

/// The session key for a freshly established channel: the server's transport
/// secret bound to the peer's public key material.
pub open spec fn spec_session_key(secret: Seq<u8>, public_key: Seq<u8>) -> Seq<u8> {
    secret + public_key
}

/// Derives the session key from the server secret and the peer's public key.
pub fn derive_session_key(secret: &Vec<u8>, public_key: &Vec<u8>) -> (r: Vec<u8>)
    ensures
        r@ == spec_session_key(secret@, public_key@),
{
    let mut out = copy_bytes(secret);
    let mut tail = copy_bytes(public_key);
    out.append(&mut tail);
    out
}

/// The inbound secure-channel establisher: the server's certificate chain and
/// private transport secret, the client-certificate verifier policy, and the
/// cipher suite new sessions negotiate.
pub struct SecureChannel {
    pub certificates: Vec<Certificate>,
    pub private_key: Vec<u8>,
    pub cert_verifier: CertVerifier,
    pub suite: CipherSuite,
}

impl SecureChannel {
    /// The server must hold a certificate to present and a nonempty
    /// transport secret to derive session keys from.
    pub open spec fn wf(self) -> bool {
        &&& self.certificates@.len() > 0
        &&& self.private_key@.len() > 0
    }

    /// Whether an inbound attempt passes every handshake gate.
    pub open spec fn spec_accepts(self, peer: PeerHello) -> bool {
        &&& !peer.deadline_exceeded
        &&& peer.version == PROTOCOL_VERSION
        &&& self.cert_verifier.spec_cert_valid(peer.cert@)
    }

    /// The model of the channel a successful handshake registers.
    pub open spec fn spec_new_channel(self, peer: PeerHello) -> ChannelModel {
        ChannelModel {
            agent_id: peer.cert@.subject,
            suite: self.suite,
            key: spec_session_key(self.private_key@, peer.cert@.public_key),
            open: true,
            responsive: true,
            outbound: Seq::empty(),
        }
    }

    /// Performs the mutual-authentication handshake for one inbound attempt.
    /// On success the new channel is bound to the identity the peer
    /// certificate names and registered, superseding (and closing) any prior
    /// channel for that identity; the bound identity is returned. On any
    /// failure a typed error is returned and the registry is untouched — no
    /// partially established channel is ever exposed.
    pub fn establish_connection(&self, registry: &mut ChannelRegistry, peer: &PeerHello) -> (r:
        Result<u64, HandshakeError>)
        requires
            self.wf(),
            old(registry).wf(),
        ensures
            final(registry).wf(),
            (r is Ok) == self.spec_accepts(*peer),
            r matches Ok(id) ==> {
                &&& id == peer.cert@.subject
                &&& final(registry).spec_has_channel(id)
                &&& final(registry).spec_channel(id) == self.spec_new_channel(*peer)
                &&& forall|a: u64|
                    a != id ==> (final(registry).spec_has_channel(a) == old(registry).spec_has_channel(a))
                &&& forall|a: u64|
                    a != id && old(registry).spec_has_channel(a) ==> final(registry).spec_channel(
                        a,
                    ) == old(registry).spec_channel(a)
            },
            r is Err ==> {
                &&& forall|a: u64|
                    final(registry).spec_has_channel(a) == old(registry).spec_has_channel(a)
                &&& forall|a: u64|
                    old(registry).spec_has_channel(a) ==> final(registry).spec_channel(a) == old(registry).spec_channel(a)
            },
            r == Err::<u64, HandshakeError>(HandshakeError::Timeout) <==> peer.deadline_exceeded,
            r == Err::<u64, HandshakeError>(HandshakeError::VersionMismatch) <==> (
            !peer.deadline_exceeded && peer.version != PROTOCOL_VERSION),
            r == Err::<u64, HandshakeError>(HandshakeError::UntrustedCertificate) <==> (
            !peer.deadline_exceeded && peer.version == PROTOCOL_VERSION
                && !self.cert_verifier.spec_issuer_known(peer.cert@)),
            r == Err::<u64, HandshakeError>(HandshakeError::SignatureMismatch) <==> (
            !peer.deadline_exceeded && peer.version == PROTOCOL_VERSION
                && self.cert_verifier.spec_issuer_known(peer.cert@)
                && !self.cert_verifier.spec_cert_valid(peer.cert@)),
    {
        if peer.deadline_exceeded {
            return Err(HandshakeError::Timeout);
        }
        if peer.version != PROTOCOL_VERSION {
            return Err(HandshakeError::VersionMismatch);
        }
        match self.cert_verifier.check_certificate(&peer.cert) {
            CertCheck::UnknownIssuer => Err(HandshakeError::UntrustedCertificate),
            CertCheck::BadSignature => Err(HandshakeError::SignatureMismatch),
            CertCheck::Valid => {
                let key = derive_session_key(&self.private_key, &peer.cert.public_key);
                let channel = Channel {
                    agent_id: peer.cert.subject,
                    suite: self.suite,
                    key,
                    open: true,
                    responsive: true,
                    outbound: Vec::new(),
                };
                proof {
                    assert(channel@.outbound =~= Seq::<Seq<u8>>::empty());
                    assert(channel@ == self.spec_new_channel(*peer));
                }
                let _closed = registry.register(channel);
                Ok(peer.cert.subject)
            },
        }
    }
}

} // verus!
