//! The orchestrator for inbound telemetry: decrypt one unit from an agent's
//! channel, correlate it through the analyzer engines, and store the result.

use vstd::prelude::*;
use crate::agent_data::{AgentData, decode_agent_data, spec_decode_agent_data};
use crate::analyzer::{Analysis, AnalysisError, AnalysisModel, ThreatAnalyzer, spec_merged_analysis};
use crate::crypto;
use crate::crypto::CipherSuite;

verus! {

/// Why storing a result failed.
#[derive(Clone, Copy, PartialEq, Eq, Structural, Debug)]
pub enum StorageError {
    /// The store refuses writes.
    Unavailable,
}

/// The analysis store: fail-fast, append-only from this core's view.
pub struct Database {
    pub analyses: Vec<Analysis>,
    /// Whether the store currently accepts writes.
    pub healthy: bool,
}

impl Database {
    /// Everything stored so far.
    pub open spec fn stored(self) -> Seq<AnalysisModel> {
        Seq::new(self.analyses@.len(), |i: int| self.analyses@[i]@)
    }

    /// An empty, healthy store.
    pub fn new() -> (r: Self)
        ensures
            r.healthy,
            r.stored() == Seq::<AnalysisModel>::empty(),
    {
        let d = Database { analyses: Vec::new(), healthy: true };
        proof {
            assert(d.stored() =~= Seq::<AnalysisModel>::empty());
        }
        d
    }

    /// Appends one analysis; fails fast, and stores nothing, when the store
    /// is down. The failure is surfaced, never swallowed.
    pub fn store_analysis(&mut self, analysis: Analysis) -> (r: Result<(), StorageError>)
        ensures
            (r is Ok) == old(self).healthy,
            r is Err ==> r == Err::<(), StorageError>(StorageError::Unavailable),
            final(self).healthy == old(self).healthy,
            old(self).healthy ==> final(self).stored() == old(self).stored().push(analysis@),
            !old(self).healthy ==> final(self).stored() == old(self).stored(),
    {
        if !self.healthy {
            return Err(StorageError::Unavailable);
        }
        let ghost before = self.stored();
        self.analyses.push(analysis);
        proof {
            assert(self.stored() =~= before.push(analysis@));
        }
        Ok(())
    }
}

/// Why handling one telemetry unit failed.
#[derive(Clone, Copy, PartialEq, Eq, Structural, Debug)]
pub enum ServerError {
    /// The decrypted bytes do not decode to a telemetry unit.
    MalformedData,
    /// Every analyzer engine failed; there is no analysis to store.
    AllEnginesFailed,
    /// The analysis was produced but the store refused it.
    StorageFailed,
}

/// The security server: receives encrypted telemetry, analyzes it, and
/// stores the results.
pub struct SecurityServer {
    pub analyzer: ThreatAnalyzer,
    pub database: Database,
    /// The suite and session key of the channel the telemetry arrives on.
    pub suite: CipherSuite,
    pub session_key: Vec<u8>,
}

impl SecurityServer {
    pub open spec fn wf(self) -> bool {
        &&& self.analyzer.wf()
        &&& self.session_key@.len() > 0
    }

    /// What one ciphertext decodes to after channel decryption.
    pub open spec fn spec_decrypted(self, ciphertext: Seq<u8>) -> Option<
        crate::agent_data::AgentDataModel,
    > {
        spec_decode_agent_data(crypto::spec_decrypt(self.suite, self.session_key@, ciphertext))
    }

    /// At least one analyzer engine is up.
    pub open spec fn spec_engines_up(self) -> bool {
        self.analyzer.ml_engine.available || self.analyzer.rules_engine.enabled
            || self.analyzer.threat_intel.reachable
    }

    /// The analysis one decoded unit correlates to.
    pub open spec fn spec_analysis_of(self, payload: Seq<u8>) -> AnalysisModel {
        spec_merged_analysis(
            self.analyzer.ml_engine.spec_outcome(payload),
            self.analyzer.rules_engine.spec_outcome(payload),
            self.analyzer.threat_intel.spec_outcome(payload),
        )
    }

    /// Decrypts and decodes one telemetry unit from the channel.
    fn decrypt_data(&self, ciphertext: &Vec<u8>) -> (r: Option<AgentData>)
        requires
            self.wf(),
        ensures
            (r is Some) == (self.spec_decrypted(ciphertext@) is Some),
            r matches Some(d) ==> self.spec_decrypted(ciphertext@) == Some(d@),
    {
        let plain = crypto::decrypt(self.suite, &self.session_key, ciphertext);
        decode_agent_data(&plain)
    }

    /// Handles one encrypted telemetry unit: decrypt, correlate, store.
    /// Succeeds exactly when the bytes decode, at least one engine is up,
    /// and the store accepts the result; each failure is typed and nothing
    /// about it is swallowed.
    pub fn handle_agent_data(&mut self, ciphertext: &Vec<u8>) -> (r: Result<(), ServerError>)
        requires
            old(self).wf(),
        ensures
            final(self).wf(),
            final(self).analyzer == old(self).analyzer,
            final(self).suite == old(self).suite,
            final(self).session_key@ == old(self).session_key@,
            final(self).database.healthy == old(self).database.healthy,
            (r is Ok) == (old(self).spec_decrypted(ciphertext@) is Some && old(self).spec_engines_up() && old(self).database.healthy),
            r == Err::<(), ServerError>(ServerError::MalformedData) <==> (old(self).spec_decrypted(
                ciphertext@,
            ) is None),
            r == Err::<(), ServerError>(ServerError::AllEnginesFailed) <==> (old(self).spec_decrypted(ciphertext@) is Some && !old(self).spec_engines_up()),
            r == Err::<(), ServerError>(ServerError::StorageFailed) <==> (old(self).spec_decrypted(
                ciphertext@,
            ) is Some && old(self).spec_engines_up() && !old(self).database.healthy),
            r is Ok ==> final(self).database.stored() == old(self).database.stored().push(
                old(self).spec_analysis_of(
                    old(self).spec_decrypted(ciphertext@)->Some_0.payload,
                ),
            ),
            !(r is Ok) ==> final(self).database.stored() == old(self).database.stored(),
    {
        let data = match self.decrypt_data(ciphertext) {
            None => {
                return Err(ServerError::MalformedData);
            },
            Some(d) => d,
        };
        let analysis = match self.analyzer.analyze_threats(&data) {
            Err(AnalysisError::AllEnginesFailed) => {
                return Err(ServerError::AllEnginesFailed);
            },
            Ok(a) => a,
        };
        match self.database.store_analysis(analysis) {
            Err(StorageError::Unavailable) => Err(ServerError::StorageFailed),
            Ok(()) => Ok(()),
        }
    }
}

} // verus!
