//! Live agent channels and the connection registry.
//!
//! The registry is the one piece of shared mutable state in the core: it maps
//! each agent identity to at most one live channel. Replacing a channel for
//! an identity closes the prior one before the registry reflects the new one.

use vstd::prelude::*;
use crate::crypto;
use crate::crypto::CipherSuite;

verus! {

/// Mathematical model of one channel.
pub ghost struct ChannelModel {
    pub agent_id: u64,
    pub suite: CipherSuite,
    pub key: Seq<u8>,
    pub open: bool,
    pub responsive: bool,
    pub outbound: Seq<Seq<u8>>,
}

/// A live, encrypted, authenticated duplex channel bound to exactly one
/// agent identity. `outbound` records every ciphertext sent to the agent;
/// `responsive` says whether the agent answers within the dispatch deadline.
#[derive(Debug)]
pub struct Channel {
    pub agent_id: u64,
    pub suite: CipherSuite,
    pub key: Vec<u8>,
    pub open: bool,
    pub responsive: bool,
    pub outbound: Vec<Vec<u8>>,
}

impl View for Channel {
    type V = ChannelModel;

    open spec fn view(&self) -> ChannelModel {
        ChannelModel {
            agent_id: self.agent_id,
            suite: self.suite,
            key: self.key@,
            open: self.open,
            responsive: self.responsive,
            outbound: Seq::new(self.outbound@.len(), |i: int| self.outbound@[i]@),
        }
    }
}

impl Channel {
    /// A usable channel carries a nonempty session key.
    pub open spec fn wf(self) -> bool {
        self.key@.len() > 0
    }

    /// Encrypts `plain` with this channel's suite and session key.
    pub fn encrypt_message(&self, plain: &Vec<u8>) -> (c: Vec<u8>)
        requires
            self.wf(),
        ensures
            c@ == crypto::spec_encrypt(self.suite, self.key@, plain@),
    {
        crypto::encrypt(self.suite, &self.key, plain)
    }

    /// Decrypts `cipher` with this channel's suite and session key.
    pub fn decrypt_message(&self, cipher: &Vec<u8>) -> (p: Vec<u8>)
        requires
            self.wf(),
        ensures
            p@ == crypto::spec_decrypt(self.suite, self.key@, cipher@),
    {
        crypto::decrypt(self.suite, &self.key, cipher)
    }
}

/// The outcome of dispatching one message to one agent.
#[derive(Clone, Copy, PartialEq, Eq, Structural, Debug)]
pub enum DispatchStatus {
    /// No live channel is registered for the agent.
    NoChannel,
    /// The message was sent but no response arrived within the deadline.
    TimedOut,
    /// The message was sent and the agent answered.
    Delivered,
}

/// The live-connection registry: agent identity to its one live channel.
pub struct ChannelRegistry {
    pub channels: Vec<Channel>,
}

impl ChannelRegistry {
    /// Every registered channel is open and usable, and no two channels
    /// share an agent identity: at most one live channel per agent.
    pub open spec fn wf(self) -> bool {
        &&& forall|i: int|
            0 <= i < self.channels@.len() ==> (#[trigger] self.channels@[i]).wf()
                && self.channels@[i].open
        &&& forall|i: int, j: int|
            0 <= i < self.channels@.len() && 0 <= j < self.channels@.len() && i != j
                ==> (#[trigger] self.channels@[i]).agent_id
                != (#[trigger] self.channels@[j]).agent_id
    }

    pub open spec fn spec_has_channel(self, agent: u64) -> bool {
        exists|i: int|
            0 <= i < self.channels@.len() && (#[trigger] self.channels@[i]).agent_id == agent
    }

    pub open spec fn spec_channel_index(self, agent: u64) -> int {
        choose|i: int|
            0 <= i < self.channels@.len() && (#[trigger] self.channels@[i]).agent_id == agent
    }

    /// The model of the one live channel registered for `agent`.
    pub open spec fn spec_channel(self, agent: u64) -> ChannelModel {
        self.channels@[self.spec_channel_index(agent)]@
    }

    /// With the registry invariant, any position holding `agent`'s channel
    /// is the position `spec_channel_index` names.
    pub proof fn lemma_channel_index(self, agent: u64, j: int)
        requires
            self.wf(),
            0 <= j < self.channels@.len(),
            self.channels@[j].agent_id == agent,
        ensures
            self.spec_has_channel(agent),
            self.spec_channel_index(agent) == j,
            self.spec_channel(agent) == self.channels@[j]@,
    {
        assert(self.spec_has_channel(agent));
        let i = self.spec_channel_index(agent);
        assert(0 <= i < self.channels@.len() && self.channels@[i].agent_id == agent);
    }

    /// No two channels are simultaneously current for one identity: any two
    /// registry positions holding the same agent are the same position.
    pub proof fn lemma_at_most_one_live_channel(self, i: int, j: int)
        requires
            self.wf(),
            0 <= i < self.channels@.len(),
            0 <= j < self.channels@.len(),
            self.channels@[i].agent_id == self.channels@[j].agent_id,
        ensures
            i == j,
    {
    }

    /// An empty registry.
    pub fn new() -> (r: Self)
        ensures
            r.wf(),
            r.channels@.len() == 0,
            forall|a: u64| !r.spec_has_channel(a),
    {
        ChannelRegistry { channels: Vec::new() }
    }

    /// Registers `ch` as the one live channel for its agent, atomically
    /// superseding any prior channel for the same identity: the prior channel
    /// is closed and handed back, never left current beside the new one.
    pub fn register(&mut self, ch: Channel) -> (prior: Option<Channel>)
        requires
            old(self).wf(),
            ch.wf(),
            ch.open,
        ensures
            final(self).wf(),
            final(self).spec_has_channel(ch@.agent_id),
            final(self).spec_channel(ch@.agent_id) == ch@,
            (prior is Some) == old(self).spec_has_channel(ch@.agent_id),
            prior matches Some(p) ==> !p.open && p@ == (ChannelModel {
                open: false,
                ..old(self).spec_channel(ch@.agent_id)
            }),
            forall|a: u64|
                a != ch@.agent_id ==> (final(self).spec_has_channel(a) == old(self).spec_has_channel(a)),
            forall|a: u64|
                a != ch@.agent_id && old(self).spec_has_channel(a) ==> final(self).spec_channel(a)
                    == old(self).spec_channel(a),
    {
        let agent = ch.agent_id;
        let mut i: usize = 0;
        let n = self.channels.len();
        while i < n
            invariant
                self.channels@ == old(self).channels@,
                self.wf(),
                agent == ch.agent_id,
                ch.wf(),
                ch.open,
                n == self.channels@.len(),
                i <= n,
                forall|j: int| 0 <= j < i ==> (#[trigger] self.channels@[j]).agent_id != agent,
            decreases n - i,
        {
            if self.channels[i].agent_id == agent {
                let mut prior = ch;
                core::mem::swap(&mut self.channels[i], &mut prior);
                prior.open = false;
                proof {
                    let before = old(self).channels@;
                    assert(self.channels@ =~= before.update(i as int, self.channels@[i as int]));
                    old(self).lemma_channel_index(agent, i as int);
                    assert forall|p: int, q: int|
                        0 <= p < self.channels@.len() && 0 <= q < self.channels@.len() && p
                            != q implies (#[trigger] self.channels@[p]).agent_id
                        != (#[trigger] self.channels@[q]).agent_id by {
                        if p != i as int && q != i as int {
                            assert(self.channels@[p] == before[p]);
                            assert(self.channels@[q] == before[q]);
                        } else if p == i as int {
                            assert(self.channels@[q] == before[q]);
                            assert(before[q].agent_id != agent);
                        } else {
                            assert(self.channels@[p] == before[p]);
                            assert(before[p].agent_id != agent);
                        }
                    }
                    self.lemma_channel_index(agent, i as int);
                    assert forall|a: u64|
                        a != agent implies (self.spec_has_channel(a) == old(self).spec_has_channel(
                        a,
                    )) by {
                        if self.spec_has_channel(a) {
                            let k = self.spec_channel_index(a);
                            assert(self.channels@[k].agent_id == a);
                            assert(k != i as int);
                            assert(before[k].agent_id == a);
                            assert(old(self).spec_has_channel(a));
                        }
                        if old(self).spec_has_channel(a) {
                            let k = old(self).spec_channel_index(a);
                            assert(before[k].agent_id == a);
                            assert(k != i as int);
                            assert(self.channels@[k].agent_id == a);
                            assert(self.spec_has_channel(a));
                        }
                    }
                    assert forall|a: u64|
                        a != agent && old(self).spec_has_channel(a) implies self.spec_channel(a)
                        == old(self).spec_channel(a) by {
                        let k = old(self).spec_channel_index(a);
                        assert(before[k].agent_id == a);
                        assert(k != i as int);
                        assert(self.channels@[k].agent_id == a);
                        old(self).lemma_channel_index(a, k);
                        self.lemma_channel_index(a, k);
                    }
                }
                return Some(prior);
            }
            i += 1;
        }
        proof {
            assert(!old(self).spec_has_channel(agent));
        }
        let ghost before = self.channels@;
        self.channels.push(ch);
        proof {
            assert forall|p: int, q: int|
                0 <= p < self.channels@.len() && 0 <= q < self.channels@.len() && p
                    != q implies (#[trigger] self.channels@[p]).agent_id
                != (#[trigger] self.channels@[q]).agent_id by {
                if p < before.len() && q < before.len() {
                    assert(self.channels@[p] == before[p]);
                    assert(self.channels@[q] == before[q]);
                } else if p == before.len() {
                    assert(self.channels@[q] == before[q]);
                    assert(before[q].agent_id != agent);
                } else {
                    assert(self.channels@[p] == before[p]);
                    assert(before[p].agent_id != agent);
                }
            }
            self.lemma_channel_index(agent, before.len() as int);
            assert forall|a: u64|
                a != agent implies (self.spec_has_channel(a) == old(self).spec_has_channel(a)) by {
                if self.spec_has_channel(a) {
                    let k = self.spec_channel_index(a);
                    assert(self.channels@[k].agent_id == a);
                    assert(k != before.len());
                    assert(before[k].agent_id == a);
                    assert(old(self).spec_has_channel(a));
                }
                if old(self).spec_has_channel(a) {
                    let k = old(self).spec_channel_index(a);
                    assert(before[k].agent_id == a);
                    assert(self.channels@[k].agent_id == a);
                    assert(self.spec_has_channel(a));
                }
            }
            assert forall|a: u64|
                a != agent && old(self).spec_has_channel(a) implies self.spec_channel(a) == old(self).spec_channel(a) by {
                let k = old(self).spec_channel_index(a);
                assert(before[k].agent_id == a);
                assert(self.channels@[k].agent_id == a);
                old(self).lemma_channel_index(a, k);
                self.lemma_channel_index(a, k);
            }
        }
        None
    }

    /// Encrypts `plain` on `agent`'s live channel and sends it: at most one
    /// outbound message, to exactly that agent. Reports whether no channel
    /// exists, the agent timed out, or the agent answered.
    pub fn dispatch(&mut self, agent: u64, plain: &Vec<u8>) -> (r: DispatchStatus)
        requires
            old(self).wf(),
        ensures
            final(self).wf(),
            (r is NoChannel) == !old(self).spec_has_channel(agent),
            forall|a: u64|
                final(self).spec_has_channel(a) == old(self).spec_has_channel(a),
            !old(self).spec_has_channel(agent) ==> forall|a: u64|
                old(self).spec_has_channel(a) ==> final(self).spec_channel(a) == old(self).spec_channel(a),
            old(self).spec_has_channel(agent) ==> {
                let m = old(self).spec_channel(agent);
                &&& final(self).spec_channel(agent) == (ChannelModel {
                    outbound: m.outbound.push(crypto::spec_encrypt(m.suite, m.key, plain@)),
                    ..m
                })
                &&& (r is Delivered) == m.responsive
                &&& (r is TimedOut) == !m.responsive
            },
            forall|a: u64|
                a != agent && old(self).spec_has_channel(a) ==> final(self).spec_channel(a) == old(self).spec_channel(a),
    {
        let mut i: usize = 0;
        let n = self.channels.len();
        while i < n
            invariant
                self.channels@ == old(self).channels@,
                self.wf(),
                n == self.channels@.len(),
                i <= n,
                forall|j: int| 0 <= j < i ==> (#[trigger] self.channels@[j]).agent_id != agent,
            decreases n - i,
        {
            if self.channels[i].agent_id == agent {
                proof {
                    old(self).lemma_channel_index(agent, i as int);
                }
                let chan = &mut self.channels[i];
                let cipher = crypto::encrypt(chan.suite, &chan.key, plain);
                chan.outbound.push(cipher);
                let responsive = chan.responsive;
                proof {
                    let before = old(self).channels@;
                    assert(self.channels@ =~= before.update(i as int, self.channels@[i as int]));
                    assert(self.channels@[i as int]@ == (ChannelModel {
                        outbound: before[i as int]@.outbound.push(
                            crypto::spec_encrypt(
                                before[i as int]@.suite,
                                before[i as int]@.key,
                                plain@,
                            ),
                        ),
                        ..before[i as int]@
                    })) by {
                        assert(self.channels@[i as int]@.outbound =~= before[i as int]@.outbound
                            .push(
                            crypto::spec_encrypt(
                                before[i as int]@.suite,
                                before[i as int]@.key,
                                plain@,
                            ),
                        ));
                    }
                    assert forall|p: int, q: int|
                        0 <= p < self.channels@.len() && 0 <= q < self.channels@.len() && p
                            != q implies (#[trigger] self.channels@[p]).agent_id
                        != (#[trigger] self.channels@[q]).agent_id by {
                        if p != i as int {
                            assert(self.channels@[p] == before[p]);
                        }
                        if q != i as int {
                            assert(self.channels@[q] == before[q]);
                        }
                        assert(self.channels@[i as int].agent_id == before[i as int].agent_id);
                    }
                    self.lemma_channel_index(agent, i as int);
                    assert forall|a: u64|
                        self.spec_has_channel(a) == old(self).spec_has_channel(a) by {
                        if self.spec_has_channel(a) {
                            let k = self.spec_channel_index(a);
                            assert(self.channels@[k].agent_id == a);
                            if k == i as int {
                                assert(before[k].agent_id == a);
                            } else {
                                assert(before[k].agent_id == a);
                            }
                            assert(old(self).spec_has_channel(a));
                        }
                        if old(self).spec_has_channel(a) {
                            let k = old(self).spec_channel_index(a);
                            assert(before[k].agent_id == a);
                            assert(self.channels@[k].agent_id == a);
                            assert(self.spec_has_channel(a));
                        }
                    }
                    assert forall|a: u64|
                        a != agent && old(self).spec_has_channel(a) implies self.spec_channel(a)
                        == old(self).spec_channel(a) by {
                        let k = old(self).spec_channel_index(a);
                        assert(before[k].agent_id == a);
                        assert(k != i as int);
                        assert(self.channels@[k].agent_id == a);
                        old(self).lemma_channel_index(a, k);
                        self.lemma_channel_index(a, k);
                    }
                }
                if responsive {
                    return DispatchStatus::Delivered;
                } else {
                    return DispatchStatus::TimedOut;
                }
            }
            i += 1;
        }
        proof {
            assert(!old(self).spec_has_channel(agent));
        }
        DispatchStatus::NoChannel
    }
}

} // verus!
