//! Certificates, the trust policy that validates them, and the identity
//! provider that resolves an agent identity to its certificate.

use vstd::prelude::*;
use vstd::bytes::{spec_u64_to_le_bytes, u64_to_le_bytes};
use crate::crypto::{spec_mac, mac_bytes};

verus! {

/// Identity-bound credential material for one agent: the identity it is bound
/// to, the authority that signed it, the subject's public key material, and
/// the issuer's authenticator over the canonical certificate bytes.
#[derive(Debug)]
pub struct Certificate {
    pub subject: u64,
    pub issuer: u64,
    pub public_key: Vec<u8>,
    pub signature: u64,
}

/// Mathematical model of a certificate.
pub ghost struct CertificateModel {
    pub subject: u64,
    pub issuer: u64,
    pub public_key: Seq<u8>,
    pub signature: u64,
}

impl View for Certificate {
    type V = CertificateModel;

    open spec fn view(&self) -> CertificateModel {
        CertificateModel {
            subject: self.subject,
            issuer: self.issuer,
            public_key: self.public_key@,
            signature: self.signature,
        }
    }
}

/// The canonical bytes of a certificate: what the issuer signs.
pub open spec fn spec_cert_bytes(cert: CertificateModel) -> Seq<u8> {
    spec_u64_to_le_bytes(cert.subject) + spec_u64_to_le_bytes(cert.issuer) + cert.public_key
}

/// Copies a byte vector.
pub fn copy_bytes(v: &Vec<u8>) -> (r: Vec<u8>)
    ensures
        r@ == v@,
{
    let mut out: Vec<u8> = Vec::new();
    let mut i: usize = 0;
    while i < v.len()
        invariant
            i <= v@.len(),
            out@ == v@.subrange(0, i as int),
        decreases v@.len() - i,
    {
        out.push(v[i]);
        proof {
            assert(out@ =~= v@.subrange(0, i + 1 as int));
        }
        i += 1;
    }
    proof {
        assert(out@ =~= v@);
    }
    out
}

/// Produces the canonical bytes of `cert`.
pub fn cert_bytes(cert: &Certificate) -> (r: Vec<u8>)
    ensures
        r@ == spec_cert_bytes(cert@),
{
    let mut out = u64_to_le_bytes(cert.subject);
    let mut issuer_bytes = u64_to_le_bytes(cert.issuer);
    out.append(&mut issuer_bytes);
    let mut key_bytes = copy_bytes(&cert.public_key);
    out.append(&mut key_bytes);
    out
}

/// Copies a certificate value.
pub fn copy_certificate(cert: &Certificate) -> (r: Certificate)
    ensures
        r@ == cert@,
{
    Certificate {
        subject: cert.subject,
        issuer: cert.issuer,
        public_key: copy_bytes(&cert.public_key),
        signature: cert.signature,
    }
}

/// One authority the verifier trusts: the issuer identity and the key its
/// certificate signatures are checked against.
#[derive(Clone, Copy, PartialEq, Eq, Structural, Debug)]
pub struct TrustAnchor {
    pub issuer: u64,
    pub key: u64,
}

/// The outcome of checking one peer certificate against the trust policy.
#[derive(Clone, Copy, PartialEq, Eq, Structural, Debug)]
pub enum CertCheck {
    /// A trusted issuer vouches for the certificate.
    Valid,
    /// No trust anchor knows the certificate's issuer.
    UnknownIssuer,
    /// The issuer is known but its authenticator does not match.
    BadSignature,
}

/// The client-certificate verifier policy: the set of trusted authorities.
pub struct CertVerifier {
    pub trusted: Vec<TrustAnchor>,
}

impl CertVerifier {
    /// Some trust anchor knows the certificate's issuer.
    pub open spec fn spec_issuer_known(self, cert: CertificateModel) -> bool {
        exists|i: int|
            0 <= i < self.trusted@.len() && (#[trigger] self.trusted@[i]).issuer == cert.issuer
    }

    /// Some trust anchor both knows the issuer and validates the signature
    /// over the canonical certificate bytes.
    pub open spec fn spec_cert_valid(self, cert: CertificateModel) -> bool {
        exists|i: int|
            {
                &&& 0 <= i < self.trusted@.len()
                &&& (#[trigger] self.trusted@[i]).issuer == cert.issuer
                &&& cert.signature == spec_mac(self.trusted@[i].key, spec_cert_bytes(cert))
            }
    }

    /// A verifier that trusts nothing yet.
    pub fn new() -> (r: Self)
        ensures
            r.trusted@.len() == 0,
            forall|c: CertificateModel| !r.spec_cert_valid(c),
    {
        CertVerifier { trusted: Vec::new() }
    }

    /// Adds one trusted authority.
    pub fn add_trust_anchor(&mut self, anchor: TrustAnchor)
        ensures
            final(self).trusted@ == old(self).trusted@.push(anchor),
    {
        self.trusted.push(anchor);
    }

    /// Checks `cert` against the trust policy and says which of the three
    /// outcomes holds.
    pub fn check_certificate(&self, cert: &Certificate) -> (r: CertCheck)
        ensures
            (r is Valid) == self.spec_cert_valid(cert@),
            (r is UnknownIssuer) == !self.spec_issuer_known(cert@),
            (r is BadSignature) == (self.spec_issuer_known(cert@) && !self.spec_cert_valid(cert@)),
    {
        let bytes = cert_bytes(cert);
        let mut issuer_seen = false;
        let mut i: usize = 0;
        let n = self.trusted.len();
        while i < n
            invariant
                n == self.trusted@.len(),
                i <= n,
                bytes@ == spec_cert_bytes(cert@),
                issuer_seen == exists|j: int|
                    0 <= j < i && (#[trigger] self.trusted@[j]).issuer == cert@.issuer,
                forall|j: int|
                    0 <= j < i ==> !((#[trigger] self.trusted@[j]).issuer == cert@.issuer
                        && cert@.signature == spec_mac(self.trusted@[j].key, spec_cert_bytes(cert@))),
            decreases n - i,
        {
            let anchor = self.trusted[i];
            if anchor.issuer == cert.issuer {
                issuer_seen = true;
                let tag = mac_bytes(anchor.key, &bytes);
                if tag == cert.signature {
                    return CertCheck::Valid;
                }
            }
            i += 1;
        }
        if issuer_seen {
            CertCheck::BadSignature
        } else {
            CertCheck::UnknownIssuer
        }
    }
}

/// The identity provider: resolves an agent identity to the certificate it
/// was issued. Holds at most one certificate per agent.
pub struct CertificateManager {
    pub certs: Vec<Certificate>,
}

impl CertificateManager {
    /// At most one certificate per agent, each stored under its own subject.
    pub open spec fn wf(self) -> bool {
        forall|i: int, j: int|
            0 <= i < self.certs@.len() && 0 <= j < self.certs@.len() && i != j
                ==> (#[trigger] self.certs@[i]).subject != (#[trigger] self.certs@[j]).subject
    }

    pub open spec fn spec_has_cert(self, agent: u64) -> bool {
        exists|i: int|
            0 <= i < self.certs@.len() && (#[trigger] self.certs@[i]).subject == agent
    }

    pub open spec fn spec_cert_index(self, agent: u64) -> int {
        choose|i: int|
            0 <= i < self.certs@.len() && (#[trigger] self.certs@[i]).subject == agent
    }

    /// The certificate stored for `agent`.
    pub open spec fn spec_cert_for(self, agent: u64) -> CertificateModel {
        self.certs@[self.spec_cert_index(agent)]@
    }

    /// With the well-formedness invariant, any position holding `agent`'s
    /// certificate is the position `spec_cert_index` names.
    pub proof fn lemma_cert_index(self, agent: u64, j: int)
        requires
            self.wf(),
            0 <= j < self.certs@.len(),
            self.certs@[j].subject == agent,
        ensures
            self.spec_has_cert(agent),
            self.spec_cert_index(agent) == j,
            self.spec_cert_for(agent) == self.certs@[j]@,
    {
        assert(self.spec_has_cert(agent));
        let i = self.spec_cert_index(agent);
        assert(0 <= i < self.certs@.len() && self.certs@[i].subject == agent);
    }

    /// An empty identity provider.
    pub fn new() -> (r: Self)
        ensures
            r.wf(),
            r.certs@.len() == 0,
            forall|a: u64| !r.spec_has_cert(a),
    {
        CertificateManager { certs: Vec::new() }
    }

    /// Stores `cert` under its subject; refuses a subject already present so
    /// each agent keeps exactly one certificate.
    pub fn add_certificate(&mut self, cert: Certificate) -> (accepted: bool)
        requires
            old(self).wf(),
        ensures
            final(self).wf(),
            accepted == !old(self).spec_has_cert(cert@.subject),
            accepted ==> final(self).certs@ == old(self).certs@.push(cert),
            !accepted ==> final(self).certs@ == old(self).certs@,
    {
        let subject = cert.subject;
        let mut i: usize = 0;
        let n = self.certs.len();
        while i < n
            invariant
                self.certs@ == old(self).certs@,
                self.wf(),
                subject == cert.subject,
                n == self.certs@.len(),
                i <= n,
                forall|j: int| 0 <= j < i ==> (#[trigger] self.certs@[j]).subject != subject,
            decreases n - i,
        {
            if self.certs[i].subject == subject {
                proof {
                    assert(old(self).certs@[i as int].subject == subject);
                    assert(old(self).spec_has_cert(subject));
                }
                return false;
            }
            i += 1;
        }
        proof {
            assert(!old(self).spec_has_cert(subject));
        }
        let ghost before = self.certs@;
        self.certs.push(cert);
        proof {
            assert forall|p: int, q: int|
                0 <= p < self.certs@.len() && 0 <= q < self.certs@.len() && p
                    != q implies (#[trigger] self.certs@[p]).subject
                != (#[trigger] self.certs@[q]).subject by {
                if p < before.len() && q < before.len() {
                    assert(self.certs@[p] == before[p]);
                    assert(self.certs@[q] == before[q]);
                } else if p == before.len() {
                    assert(self.certs@[q] == before[q]);
                } else {
                    assert(self.certs@[p] == before[p]);
                }
            }
        }
        true
    }

    /// Resolves `agent` to a copy of its certificate; absent when the agent
    /// is unknown.
    pub fn get_agent_cert(&self, agent: u64) -> (r: Option<Certificate>)
        requires
            self.wf(),
        ensures
            (r is Some) == self.spec_has_cert(agent),
            r matches Some(c) ==> c@ == self.spec_cert_for(agent) && c@.subject == agent,
    {
        let mut i: usize = 0;
        let n = self.certs.len();
        while i < n
            invariant
                n == self.certs@.len(),
                i <= n,
                self.wf(),
                forall|j: int| 0 <= j < i ==> (#[trigger] self.certs@[j]).subject != agent,
            decreases n - i,
        {
            if self.certs[i].subject == agent {
                let c = copy_certificate(&self.certs[i]);
                proof {
                    self.lemma_cert_index(agent, i as int);
                }
                return Some(c);
            }
            i += 1;
        }
        None
    }
}

} // verus!
