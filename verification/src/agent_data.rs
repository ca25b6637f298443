//! Telemetry units and their wire form.
//!
//! One `AgentData` is what an agent submits over its channel: an opaque
//! payload plus the agent identity, a timestamp and a sequence marker. The
//! wire form is three little-endian words followed by the payload; decoding
//! inverts encoding, so telemetry sent encrypted over a channel comes back
//! byte for byte.

use vstd::prelude::*;
use vstd::bytes::{
    lemma_auto_spec_u64_to_from_le_bytes,
    spec_u64_from_le_bytes,
    spec_u64_to_le_bytes,
    u64_from_le_bytes,
    u64_to_le_bytes,
};
use crate::certificate::copy_bytes;
use crate::crypto;
use crate::crypto::CipherSuite;

verus! {

/// Mathematical model of one telemetry unit.
pub ghost struct AgentDataModel {
    pub agent_id: u64,
    pub timestamp: u64,
    pub sequence: u64,
    pub payload: Seq<u8>,
}

/// One telemetry unit submitted by an agent; never mutated after creation.
#[derive(Debug)]
pub struct AgentData {
    pub agent_id: u64,
    pub timestamp: u64,
    pub sequence: u64,
    pub payload: Vec<u8>,
}

impl View for AgentData {
    type V = AgentDataModel;

    open spec fn view(&self) -> AgentDataModel {
        AgentDataModel {
            agent_id: self.agent_id,
            timestamp: self.timestamp,
            sequence: self.sequence,
            payload: self.payload@,
        }
    }
}

/// The wire form: agent identity, timestamp and sequence marker as
/// little-endian words, then the payload.
pub open spec fn spec_encode_agent_data(d: AgentDataModel) -> Seq<u8> {
    spec_u64_to_le_bytes(d.agent_id) + spec_u64_to_le_bytes(d.timestamp) + spec_u64_to_le_bytes(
        d.sequence,
    ) + d.payload
}

/// What a byte string decodes to: absent when it is too short to carry the
/// three header words.
pub open spec fn spec_decode_agent_data(bytes: Seq<u8>) -> Option<AgentDataModel> {
    if bytes.len() < 24 {
        None
    } else {
        Some(
            AgentDataModel {
                agent_id: spec_u64_from_le_bytes(bytes.subrange(0, 8)),
                timestamp: spec_u64_from_le_bytes(bytes.subrange(8, 16)),
                sequence: spec_u64_from_le_bytes(bytes.subrange(16, 24)),
                payload: bytes.subrange(24, bytes.len() as int),
            },
        )
    }
}

/// Encodes one telemetry unit into its wire form.
pub fn encode_agent_data(d: &AgentData) -> (r: Vec<u8>)
    ensures
        r@ == spec_encode_agent_data(d@),
{
    let mut out = u64_to_le_bytes(d.agent_id);
    let mut ts = u64_to_le_bytes(d.timestamp);
    out.append(&mut ts);
    let mut sq = u64_to_le_bytes(d.sequence);
    out.append(&mut sq);
    let mut body = copy_bytes(&d.payload);
    out.append(&mut body);
    out
}

/// Decodes a wire-form byte string back into a telemetry unit; refuses one
/// too short to carry the header.
pub fn decode_agent_data(bytes: &Vec<u8>) -> (r: Option<AgentData>)
    ensures
        (r is Some) == (spec_decode_agent_data(bytes@) is Some),
        r matches Some(d) ==> spec_decode_agent_data(bytes@) == Some(d@),
{
    if bytes.len() < 24 {
        return None;
    }
    let n = bytes.len();
    let agent_id = u64_from_le_bytes(vstd::slice::slice_subrange(bytes.as_slice(), 0, 8));
    let timestamp = u64_from_le_bytes(vstd::slice::slice_subrange(bytes.as_slice(), 8, 16));
    let sequence = u64_from_le_bytes(vstd::slice::slice_subrange(bytes.as_slice(), 16, 24));
    let mut payload: Vec<u8> = Vec::new();
    let mut i: usize = 24;
    while i < n
        invariant
            24 <= i <= n,
            n == bytes@.len(),
            payload@ == bytes@.subrange(24, i as int),
        decreases n - i,
    {
        payload.push(bytes[i]);
        proof {
            assert(payload@ =~= bytes@.subrange(24, i + 1 as int));
        }
        i += 1;
    }
    let d = AgentData { agent_id, timestamp, sequence, payload };
    Some(d)
}

/// Decoding inverts encoding: the wire form of a telemetry unit decodes back
/// to exactly that unit.
pub proof fn lemma_agent_data_round_trip(d: AgentDataModel)
    ensures
        spec_decode_agent_data(spec_encode_agent_data(d)) == Some(d),
{
    lemma_auto_spec_u64_to_from_le_bytes();
    let e = spec_encode_agent_data(d);
    assert(e.len() == 24 + d.payload.len());
    assert(e.subrange(0, 8) =~= spec_u64_to_le_bytes(d.agent_id));
    assert(e.subrange(8, 16) =~= spec_u64_to_le_bytes(d.timestamp));
    assert(e.subrange(16, 24) =~= spec_u64_to_le_bytes(d.sequence));
    assert(e.subrange(24, e.len() as int) =~= d.payload);
}

/// The full telemetry round trip: a unit encoded, encrypted for a channel,
/// decrypted at the receiving end and decoded is the original unit.
pub proof fn lemma_telemetry_round_trip(suite: CipherSuite, key: Seq<u8>, d: AgentDataModel)
    requires
        key.len() > 0,
    ensures
        spec_decode_agent_data(
            crypto::spec_decrypt(suite, key, crypto::spec_encrypt(suite, key, spec_encode_agent_data(d))),
        ) == Some(d),
{
    crypto::lemma_encrypt_decrypt_round_trip(suite, key, spec_encode_agent_data(d));
    lemma_agent_data_round_trip(d);
}

} // verus!
