//! The audited command path: permission check, signing, dispatch, audit.
//!
//! Every call of `execute_command` runs four gates in order — authorization,
//! signing, dispatch, audit — and appends exactly one audit record whatever
//! the outcome. A denied or undeliverable command sends nothing: at most one
//! outbound message per call, to exactly one agent, and only a message whose
//! signature the service key validates.

use vstd::prelude::*;
use vstd::bytes::{spec_u64_to_le_bytes, u64_to_le_bytes};
use crate::certificate::copy_bytes;
use crate::channel::{ChannelModel, ChannelRegistry, DispatchStatus};
use crate::crypto;
use crate::crypto::{mac_bytes, spec_mac};

verus! {

/// The command types operators can issue.
#[derive(Clone, Copy, PartialEq, Eq, Structural, Debug)]
pub enum CommandKind {
    Quarantine,
    RestartAgent,
    CollectDiagnostics,
    UpdatePolicy,
}

/// The canonical one-byte tag of a command type.
pub open spec fn spec_kind_tag(k: CommandKind) -> u8 {
    match k {
        CommandKind::Quarantine => 1,
        CommandKind::RestartAgent => 2,
        CommandKind::CollectDiagnostics => 3,
        CommandKind::UpdatePolicy => 4,
    }
}

fn kind_tag(k: CommandKind) -> (r: u8)
    ensures
        r == spec_kind_tag(k),
{
    match k {
        CommandKind::Quarantine => 1,
        CommandKind::RestartAgent => 2,
        CommandKind::CollectDiagnostics => 3,
        CommandKind::UpdatePolicy => 4,
    }
}

/// One operator request: who asks, which agent is addressed, and what the
/// agent is asked to do.
#[derive(Debug)]
pub struct CommandRequest {
    pub user_id: u64,
    pub agent_id: u64,
    pub kind: CommandKind,
    pub payload: Vec<u8>,
}

/// The canonical bytes of a command: what the service signs.
pub open spec fn spec_command_bytes(
    request_id: u64,
    agent_id: u64,
    kind: CommandKind,
    payload: Seq<u8>,
) -> Seq<u8> {
    spec_u64_to_le_bytes(request_id) + spec_u64_to_le_bytes(agent_id) + seq![spec_kind_tag(kind)]
        + payload
}

/// Produces the canonical bytes of a command.
pub fn command_bytes(request_id: u64, agent_id: u64, kind: CommandKind, payload: &Vec<u8>) -> (r:
    Vec<u8>)
    ensures
        r@ == spec_command_bytes(request_id, agent_id, kind, payload@),
{
    let mut out = u64_to_le_bytes(request_id);
    let mut agent = u64_to_le_bytes(agent_id);
    out.append(&mut agent);
    out.push(kind_tag(kind));
    let mut body = copy_bytes(payload);
    out.append(&mut body);
    proof {
        assert(out@ =~= spec_command_bytes(request_id, agent_id, kind, payload@));
    }
    out
}

/// A command bound to a verifiable signature over its canonical bytes;
/// immutable once produced.
#[derive(Debug)]
pub struct SignedCommand {
    pub request_id: u64,
    pub agent_id: u64,
    pub kind: CommandKind,
    pub payload: Vec<u8>,
    pub signature: u64,
}

/// The wire form of a signed command: the canonical bytes, then the
/// signature word.
pub open spec fn spec_signed_wire(
    request_id: u64,
    agent_id: u64,
    kind: CommandKind,
    payload: Seq<u8>,
    signature: u64,
) -> Seq<u8> {
    spec_command_bytes(request_id, agent_id, kind, payload) + spec_u64_to_le_bytes(signature)
}

/// Encodes a signed command for the wire.
pub fn signed_command_bytes(sc: &SignedCommand) -> (r: Vec<u8>)
    ensures
        r@ == spec_signed_wire(sc.request_id, sc.agent_id, sc.kind, sc.payload@, sc.signature),
{
    let mut out = command_bytes(sc.request_id, sc.agent_id, sc.kind, &sc.payload);
    let mut sig = u64_to_le_bytes(sc.signature);
    out.append(&mut sig);
    out
}

/// Checks that a signed command's signature is the authenticator of its
/// canonical bytes under `key`: the non-repudiation check.
pub fn verify_command_signature(key: u64, sc: &SignedCommand) -> (r: bool)
    ensures
        r == (sc.signature == spec_mac(
            key,
            spec_command_bytes(sc.request_id, sc.agent_id, sc.kind, sc.payload@),
        )),
{
    let bytes = command_bytes(sc.request_id, sc.agent_id, sc.kind, &sc.payload);
    let tag = mac_bytes(key, &bytes);
    tag == sc.signature
}

/// One permission: the user may issue that command type.
#[derive(Clone, Copy, PartialEq, Eq, Structural, Debug)]
pub struct Grant {
    pub user_id: u64,
    pub kind: CommandKind,
}

/// The permission authority: which (user, command-type) pairs are allowed.
pub struct PermissionAuthority {
    pub grants: Vec<Grant>,
}

impl PermissionAuthority {
    pub open spec fn spec_allowed(self, user_id: u64, kind: CommandKind) -> bool {
        exists|i: int|
            0 <= i < self.grants@.len() && #[trigger] self.grants@[i] == (Grant { user_id, kind })
    }

    /// An authority that allows nothing yet.
    pub fn new() -> (r: Self)
        ensures
            r.grants@.len() == 0,
            forall|u: u64, k: CommandKind| !r.spec_allowed(u, k),
    {
        PermissionAuthority { grants: Vec::new() }
    }

    /// Allows one (user, command-type) pair.
    pub fn grant(&mut self, user_id: u64, kind: CommandKind)
        ensures
            final(self).grants@ == old(self).grants@.push(Grant { user_id, kind }),
            forall|u: u64, k: CommandKind|
                final(self).spec_allowed(u, k) == (old(self).spec_allowed(u, k) || (u == user_id
                    && k == kind)),
    {
        let ghost before = self.grants@;
        self.grants.push(Grant { user_id, kind });
        proof {
            assert forall|u: u64, k: CommandKind|
                final(self).spec_allowed(u, k) == (old(self).spec_allowed(u, k) || (u == user_id
                    && k == kind)) by {
                if old(self).spec_allowed(u, k) {
                    let i = choose|i: int|
                        0 <= i < before.len() && #[trigger] before[i] == (Grant {
                            user_id: u,
                            kind: k,
                        });
                    assert(self.grants@[i] == (Grant { user_id: u, kind: k }));
                }
                if u == user_id && k == kind {
                    assert(self.grants@[before.len() as int] == (Grant { user_id: u, kind: k }));
                }
                if self.spec_allowed(u, k) && !(u == user_id && k == kind) {
                    let i = choose|i: int|
                        0 <= i < self.grants@.len() && #[trigger] self.grants@[i] == (Grant {
                            user_id: u,
                            kind: k,
                        });
                    assert(i < before.len());
                    assert(before[i] == (Grant { user_id: u, kind: k }));
                }
            }
        }
    }

    /// Decides whether `user_id` may issue a `kind` command.
    pub fn can_execute_command(&self, user_id: u64, kind: CommandKind) -> (r: bool)
        ensures
            r == self.spec_allowed(user_id, kind),
    {
        let mut i: usize = 0;
        let n = self.grants.len();
        while i < n
            invariant
                i <= n,
                n == self.grants@.len(),
                forall|j: int|
                    0 <= j < i ==> #[trigger] self.grants@[j] != (Grant { user_id, kind }),
            decreases n - i,
        {
            let g = self.grants[i];
            if g.user_id == user_id && g.kind == kind {
                proof {
                    assert(self.grants@[i as int] == (Grant { user_id, kind }));
                }
                return true;
            }
            i += 1;
        }
        false
    }
}

/// How one command attempt ended; what the audit record says.
#[derive(Clone, Copy, PartialEq, Eq, Structural, Debug)]
pub enum AuditOutcome {
    /// The permission authority refused the pair.
    Denied,
    /// No live channel existed for the addressed agent.
    NoChannel,
    /// The command was sent but the agent did not answer in time.
    TimedOut,
    /// The command was sent and answered.
    Succeeded,
}

/// One immutable audit entry: the attempt, its outcome, and when. Keyed by
/// request identifier so a retried append stays idempotent downstream.
#[derive(Clone, Copy, PartialEq, Eq, Structural, Debug)]
pub struct AuditRecord {
    pub request_id: u64,
    pub user_id: u64,
    pub agent_id: u64,
    pub kind: CommandKind,
    pub outcome: AuditOutcome,
    pub timestamp: u64,
}

/// The append-only audit sink.
pub struct AuditLogger {
    pub records: Vec<AuditRecord>,
}

impl AuditLogger {
    /// An empty audit log.
    pub fn new() -> (r: Self)
        ensures
            r.records@.len() == 0,
    {
        AuditLogger { records: Vec::new() }
    }

    /// Appends one record; nothing is ever removed or rewritten.
    pub fn append(&mut self, rec: AuditRecord)
        ensures
            final(self).records@ == old(self).records@.push(rec),
    {
        self.records.push(rec);
    }
}

/// The agent's reply to one signed command, correlated by request
/// identifier.
#[derive(Debug)]
pub struct CommandResponse {
    pub request_id: u64,
    pub status: ResponseStatus,
    pub payload: Vec<u8>,
}

#[derive(Clone, Copy, PartialEq, Eq, Structural, Debug)]
pub enum ResponseStatus {
    /// The agent acknowledged the command.
    Completed,
}

/// Why a command attempt failed. Terminal for that attempt; always audited.
#[derive(Clone, Copy, PartialEq, Eq, Structural, Debug)]
pub enum CommandError {
    /// The (user, command-type) pair is not allowed.
    PermissionDenied,
    /// No live channel exists for the addressed agent.
    DispatchFailed,
    /// No response arrived within the dispatch deadline.
    DispatchTimeout,
}

/// The command service: authorization, signing, dispatch and audit behind
/// one entry point. The signing key never leaves the service.
pub struct CommandService {
    pub permission_manager: PermissionAuthority,
    pub agent_manager: ChannelRegistry,
    pub signing_key: u64,
    pub next_request_id: u64,
    pub clock: u64,
    pub audit_logger: AuditLogger,
}

impl CommandService {
    pub open spec fn wf(self) -> bool {
        self.agent_manager.wf()
    }

    /// The outcome one request reaches against this service state.
    pub open spec fn spec_outcome(self, request: CommandRequest) -> AuditOutcome {
        if !self.permission_manager.spec_allowed(request.user_id, request.kind) {
            AuditOutcome::Denied
        } else if !self.agent_manager.spec_has_channel(request.agent_id) {
            AuditOutcome::NoChannel
        } else if !self.agent_manager.spec_channel(request.agent_id).responsive {
            AuditOutcome::TimedOut
        } else {
            AuditOutcome::Succeeded
        }
    }

    /// The audit record one request leaves behind.
    pub open spec fn spec_audit_record(self, request: CommandRequest) -> AuditRecord {
        AuditRecord {
            request_id: self.next_request_id,
            user_id: request.user_id,
            agent_id: request.agent_id,
            kind: request.kind,
            outcome: self.spec_outcome(request),
            timestamp: self.clock,
        }
    }

    /// The ciphertext a successful or timed-out dispatch appends to the
    /// addressed agent's channel: the signed wire form of the command,
    /// encrypted for that channel.
    pub open spec fn spec_sent_message(self, request: CommandRequest) -> Seq<u8> {
        let m = self.agent_manager.spec_channel(request.agent_id);
        let body = spec_command_bytes(
            self.next_request_id,
            request.agent_id,
            request.kind,
            request.payload@,
        );
        crypto::spec_encrypt(
            m.suite,
            m.key,
            body + spec_u64_to_le_bytes(spec_mac(self.signing_key, body)),
        )
    }

    /// A fresh service: no permissions, no channels, an empty audit log.
    pub fn new(signing_key: u64) -> (r: Self)
        ensures
            r.wf(),
            r.signing_key == signing_key,
            r.permission_manager.grants@.len() == 0,
            r.agent_manager.channels@.len() == 0,
            r.audit_logger.records@.len() == 0,
            r.next_request_id == 0,
            r.clock == 0,
    {
        CommandService {
            permission_manager: PermissionAuthority::new(),
            agent_manager: ChannelRegistry::new(),
            signing_key,
            next_request_id: 0,
            clock: 0,
            audit_logger: AuditLogger::new(),
        }
    }

    /// The permission gate: passes exactly the allowed (user, command-type)
    /// pairs.
    pub fn validate_user_permissions(&self, user_id: u64, kind: CommandKind) -> (r: Result<
        (),
        CommandError,
    >)
        ensures
            (r is Ok) == self.permission_manager.spec_allowed(user_id, kind),
            r is Err ==> r == Err::<(), CommandError>(CommandError::PermissionDenied),
    {
        if self.permission_manager.can_execute_command(user_id, kind) {
            Ok(())
        } else {
            Err(CommandError::PermissionDenied)
        }
    }

    /// Signs the canonical bytes of one command under the service key.
    fn create_signed_command(&self, request_id: u64, request: &CommandRequest) -> (sc:
        SignedCommand)
        ensures
            sc.request_id == request_id,
            sc.agent_id == request.agent_id,
            sc.kind == request.kind,
            sc.payload@ == request.payload@,
            sc.signature == spec_mac(
                self.signing_key,
                spec_command_bytes(request_id, request.agent_id, request.kind, request.payload@),
            ),
    {
        let bytes = command_bytes(request_id, request.agent_id, request.kind, &request.payload);
        let signature = mac_bytes(self.signing_key, &bytes);
        SignedCommand {
            request_id,
            agent_id: request.agent_id,
            kind: request.kind,
            payload: copy_bytes(&request.payload),
            signature,
        }
    }

    /// Executes one operator command through the four gates. Exactly one
    /// audit record is appended whatever the outcome; a denied or
    /// channel-less attempt sends nothing; a dispatched attempt appends
    /// exactly one message — the encrypted, signed wire form — to the
    /// addressed agent's channel and no other.
    pub fn execute_command(&mut self, request: &CommandRequest) -> (r: Result<
        CommandResponse,
        CommandError,
    >)
        requires
            old(self).wf(),
            old(self).next_request_id < u64::MAX,
            old(self).clock < u64::MAX,
        ensures
            final(self).wf(),
            final(self).next_request_id == old(self).next_request_id + 1,
            final(self).clock == old(self).clock + 1,
            final(self).signing_key == old(self).signing_key,
            final(self).permission_manager.grants@ == old(self).permission_manager.grants@,
            final(self).audit_logger.records@ == old(self).audit_logger.records@.push(
                old(self).spec_audit_record(*request),
            ),
            (r is Ok) == (old(self).spec_outcome(*request) is Succeeded),
            r == Err::<CommandResponse, CommandError>(CommandError::PermissionDenied) <==> (old(self).spec_outcome(*request) is Denied),
            r == Err::<CommandResponse, CommandError>(CommandError::DispatchFailed) <==> (old(self).spec_outcome(*request) is NoChannel),
            r == Err::<CommandResponse, CommandError>(CommandError::DispatchTimeout) <==> (old(self).spec_outcome(*request) is TimedOut),
            r matches Ok(resp) ==> resp.request_id == old(self).next_request_id && resp.status
                is Completed && resp.payload@ == Seq::<u8>::empty(),
            forall|a: u64|
                final(self).agent_manager.spec_has_channel(a) == old(self).agent_manager.spec_has_channel(a),
            (old(self).spec_outcome(*request) is Denied || old(self).spec_outcome(*request)
                is NoChannel) ==> forall|a: u64|
                old(self).agent_manager.spec_has_channel(a) ==> final(self).agent_manager.spec_channel(a) == old(self).agent_manager.spec_channel(a),
            (old(self).spec_outcome(*request) is TimedOut || old(self).spec_outcome(*request)
                is Succeeded) ==> {
                let m = old(self).agent_manager.spec_channel(request.agent_id);
                &&& final(self).agent_manager.spec_channel(request.agent_id) == (ChannelModel {
                    outbound: m.outbound.push(old(self).spec_sent_message(*request)),
                    ..m
                })
                &&& forall|a: u64|
                    a != request.agent_id && old(self).agent_manager.spec_has_channel(a) ==> final(self).agent_manager.spec_channel(a) == old(self).agent_manager.spec_channel(a)
            },
    {
        let request_id = self.next_request_id;
        let stamp = self.clock;
        self.next_request_id = self.next_request_id + 1;
        self.clock = self.clock + 1;
        if !self.permission_manager.can_execute_command(request.user_id, request.kind) {
            self.audit_logger.append(
                AuditRecord {
                    request_id,
                    user_id: request.user_id,
                    agent_id: request.agent_id,
                    kind: request.kind,
                    outcome: AuditOutcome::Denied,
                    timestamp: stamp,
                },
            );
            return Err(CommandError::PermissionDenied);
        }
        let signed = self.create_signed_command(request_id, request);
        let wire = signed_command_bytes(&signed);
        let status = self.agent_manager.dispatch(request.agent_id, &wire);
        match status {
            DispatchStatus::NoChannel => {
                self.audit_logger.append(
                    AuditRecord {
                        request_id,
                        user_id: request.user_id,
                        agent_id: request.agent_id,
                        kind: request.kind,
                        outcome: AuditOutcome::NoChannel,
                        timestamp: stamp,
                    },
                );
                Err(CommandError::DispatchFailed)
            },
            DispatchStatus::TimedOut => {
                self.audit_logger.append(
                    AuditRecord {
                        request_id,
                        user_id: request.user_id,
                        agent_id: request.agent_id,
                        kind: request.kind,
                        outcome: AuditOutcome::TimedOut,
                        timestamp: stamp,
                    },
                );
                Err(CommandError::DispatchTimeout)
            },
            DispatchStatus::Delivered => {
                self.audit_logger.append(
                    AuditRecord {
                        request_id,
                        user_id: request.user_id,
                        agent_id: request.agent_id,
                        kind: request.kind,
                        outcome: AuditOutcome::Succeeded,
                        timestamp: stamp,
                    },
                );
                let response = CommandResponse {
                    request_id,
                    status: ResponseStatus::Completed,
                    payload: Vec::new(),
                };
                proof {
                    assert(response.payload@ =~= Seq::<u8>::empty());
                }
                Ok(response)
            },
        }
    }
}

} // verus!
