use control_plane::agent_data::{decode_agent_data, encode_agent_data, AgentData};
use control_plane::certificate::{cert_bytes, CertVerifier, Certificate, TrustAnchor};
use control_plane::channel::{Channel, ChannelRegistry};
use control_plane::crypto::{mac_bytes, CipherSuite};
use control_plane::encryption;
use control_plane::secure_channel::{HandshakeError, PeerHello, SecureChannel, PROTOCOL_VERSION};

fn signed_cert(subject: u64, issuer: u64, public_key: Vec<u8>, anchor_key: u64) -> Certificate {
    let mut cert = Certificate {
        subject,
        issuer,
        public_key,
        signature: 0,
    };
    let bytes = cert_bytes(&cert);
    cert.signature = mac_bytes(anchor_key, &bytes);
    cert
}

fn inbound_establisher() -> SecureChannel {
    let mut verifier = CertVerifier::new();
    verifier.add_trust_anchor(TrustAnchor { issuer: 9, key: 77 });
    SecureChannel {
        certificates: vec![signed_cert(1, 9, vec![0xAA], 77)],
        private_key: vec![10, 20],
        cert_verifier: verifier,
        suite: CipherSuite::StreamXor,
    }
}

fn hello(cert: Certificate) -> PeerHello {
    PeerHello {
        version: PROTOCOL_VERSION,
        cert,
        deadline_exceeded: false,
    }
}

fn live_channel(agent_id: u64) -> Channel {
    Channel {
        agent_id,
        suite: CipherSuite::StreamXor,
        key: vec![3, 1, 4, 1, 5],
        open: true,
        responsive: true,
        outbound: Vec::new(),
    }
}

#[test]
fn valid_peer_connects_bound_to_cert_identity() {
    let est = inbound_establisher();
    let mut registry = ChannelRegistry::new();
    let peer = hello(signed_cert(42, 9, vec![5, 6], 77));
    let r = est.establish_connection(&mut registry, &peer);
    assert_eq!(r, Ok(42));
    assert_eq!(registry.channels.len(), 1);
    assert_eq!(registry.channels[0].agent_id, 42);
    assert!(registry.channels[0].open);
}

#[test]
fn untrusted_cert_refused_and_not_registered() {
    let est = inbound_establisher();
    let mut registry = ChannelRegistry::new();
    let peer = hello(signed_cert(42, 8, vec![5, 6], 77));
    let r = est.establish_connection(&mut registry, &peer);
    assert_eq!(r, Err(HandshakeError::UntrustedCertificate));
    assert_eq!(registry.channels.len(), 0);
}

#[test]
fn forged_signature_refused() {
    let est = inbound_establisher();
    let mut registry = ChannelRegistry::new();
    let peer = hello(signed_cert(42, 9, vec![5, 6], 78));
    let r = est.establish_connection(&mut registry, &peer);
    assert_eq!(r, Err(HandshakeError::SignatureMismatch));
    assert_eq!(registry.channels.len(), 0);
}

#[test]
fn wrong_protocol_version_refused() {
    let est = inbound_establisher();
    let mut registry = ChannelRegistry::new();
    let mut peer = hello(signed_cert(42, 9, vec![5, 6], 77));
    peer.version = PROTOCOL_VERSION + 1;
    let r = est.establish_connection(&mut registry, &peer);
    assert_eq!(r, Err(HandshakeError::VersionMismatch));
    assert_eq!(registry.channels.len(), 0);
}

#[test]
fn handshake_deadline_refused() {
    let est = inbound_establisher();
    let mut registry = ChannelRegistry::new();
    let mut peer = hello(signed_cert(42, 9, vec![5, 6], 77));
    peer.deadline_exceeded = true;
    let r = est.establish_connection(&mut registry, &peer);
    assert_eq!(r, Err(HandshakeError::Timeout));
    assert_eq!(registry.channels.len(), 0);
}

#[test]
fn replacing_channel_closes_prior() {
    let mut registry = ChannelRegistry::new();
    let prior = registry.register(live_channel(7));
    assert!(prior.is_none());
    let mut second = live_channel(7);
    second.key = vec![9, 9];
    let prior = registry.register(second);
    let closed = prior.expect("a prior channel must be handed back");
    assert!(!closed.open);
    assert_eq!(closed.agent_id, 7);
    assert_eq!(registry.channels.len(), 1);
    assert_eq!(registry.channels[0].key, vec![9, 9]);
    assert!(registry.channels[0].open);
}

#[test]
fn reconnecting_peer_supersedes_its_channel() {
    let est = inbound_establisher();
    let mut registry = ChannelRegistry::new();
    let first = hello(signed_cert(42, 9, vec![5, 6], 77));
    est.establish_connection(&mut registry, &first).unwrap();
    let second = hello(signed_cert(42, 9, vec![7, 7], 77));
    est.establish_connection(&mut registry, &second).unwrap();
    assert_eq!(registry.channels.len(), 1);
    assert_eq!(registry.channels[0].agent_id, 42);
}

#[test]
fn telemetry_round_trip_over_channel() {
    let channel = live_channel(42);
    let data = AgentData {
        agent_id: 42,
        timestamp: 1000,
        sequence: 5,
        payload: vec![1, 2, 3, 250, 0, 17],
    };
    let wire = encode_agent_data(&data);
    let ciphertext = channel.encrypt_message(&wire);
    assert_ne!(ciphertext, wire);
    let plaintext = channel.decrypt_message(&ciphertext);
    assert_eq!(plaintext, wire);
    let back = decode_agent_data(&plaintext).expect("wire form must decode");
    assert_eq!(back.agent_id, 42);
    assert_eq!(back.timestamp, 1000);
    assert_eq!(back.sequence, 5);
    assert_eq!(back.payload, vec![1, 2, 3, 250, 0, 17]);
}

#[test]
fn telemetry_round_trip_with_additive_suite() {
    let mut channel = live_channel(3);
    channel.suite = CipherSuite::StreamAdd;
    let data = AgentData {
        agent_id: 3,
        timestamp: 1,
        sequence: 2,
        payload: vec![255, 0, 128],
    };
    let wire = encode_agent_data(&data);
    let ciphertext = channel.encrypt_message(&wire);
    let plaintext = channel.decrypt_message(&ciphertext);
    assert_eq!(plaintext, wire);
}

#[test]
fn short_wire_form_refused() {
    let bytes = vec![1, 2, 3];
    assert!(decode_agent_data(&bytes).is_none());
}

#[test]
fn outbound_connection_resolves_certificate_first() {
    let mut est = encryption::SecureChannel::new();
    est.set_private_key(vec![11, 22]);
    est.cert_verifier.add_trust_anchor(TrustAnchor { issuer: 9, key: 77 });
    assert!(est.certificate_manager.add_certificate(signed_cert(5, 9, vec![1], 77)));
    let mut registry = ChannelRegistry::new();
    let r = est.establish_secure_connection(&mut registry, 5);
    assert_eq!(r, Ok(5));
    assert_eq!(registry.channels.len(), 1);
    assert_eq!(registry.channels[0].agent_id, 5);
}

#[test]
fn outbound_connection_to_unknown_agent_fails() {
    let est = encryption::SecureChannel::new();
    let mut registry = ChannelRegistry::new();
    let r = est.establish_secure_connection(&mut registry, 5);
    assert_eq!(r, Err(encryption::ConnectError::CertificateNotFound));
    assert_eq!(registry.channels.len(), 0);
}

#[test]
fn outbound_connection_with_untrusted_cert_fails() {
    let mut est = encryption::SecureChannel::new();
    est.set_private_key(vec![11, 22]);
    assert!(est.certificate_manager.add_certificate(signed_cert(5, 9, vec![1], 77)));
    let mut registry = ChannelRegistry::new();
    let r = est.establish_secure_connection(&mut registry, 5);
    assert_eq!(
        r,
        Err(encryption::ConnectError::Handshake(HandshakeError::UntrustedCertificate))
    );
    assert_eq!(registry.channels.len(), 0);
}

#[test]
fn duplicate_certificate_refused() {
    let mut manager = control_plane::certificate::CertificateManager::new();
    assert!(manager.add_certificate(signed_cert(5, 9, vec![1], 77)));
    assert!(!manager.add_certificate(signed_cert(5, 9, vec![2], 77)));
    let cert = manager.get_agent_cert(5).expect("stored certificate");
    assert_eq!(cert.public_key, vec![1]);
    assert!(manager.get_agent_cert(6).is_none());
}

#[test]
fn outbound_connection_with_forged_cert_fails() {
    let mut est = encryption::SecureChannel::new();
    est.set_private_key(vec![11, 22]);
    est.cert_verifier.add_trust_anchor(TrustAnchor { issuer: 9, key: 77 });
    assert!(est.certificate_manager.add_certificate(signed_cert(5, 9, vec![1], 78)));
    let mut registry = ChannelRegistry::new();
    let r = est.establish_secure_connection(&mut registry, 5);
    assert_eq!(
        r,
        Err(encryption::ConnectError::Handshake(HandshakeError::SignatureMismatch))
    );
    assert_eq!(registry.channels.len(), 0);
}

#[test]
fn empty_payload_round_trips() {
    let channel = live_channel(8);
    let data = AgentData {
        agent_id: 8,
        timestamp: 0,
        sequence: 0,
        payload: Vec::new(),
    };
    let wire = encode_agent_data(&data);
    let plaintext = channel.decrypt_message(&channel.encrypt_message(&wire));
    let back = decode_agent_data(&plaintext).expect("header-only unit decodes");
    assert_eq!(back.agent_id, 8);
    assert_eq!(back.payload.len(), 0);
}
