//! The threat-correlation pipeline: three independent analyzer engines behind
//! one uniform finding shape, and the correlator that merges their partial
//! results.
//!
//! Each engine has its own failure domain: an unavailable engine yields an
//! absent finding instead of aborting the analysis. The correlator fails only
//! when all three engines fail; otherwise it merges whatever subset succeeded
//! by a severity-weighted union in which any engine's high-severity finding
//! dominates the final classification. The merge is a function of the set of
//! completed findings alone: completion order cannot change it.

use vstd::prelude::*;
use vstd::multiset::Multiset;
use crate::agent_data::AgentData;
use crate::crypto::{mac_bytes, spec_mac};

verus! {

broadcast use vstd::seq_lib::group_to_multiset_ensures;

/// The classification labels, ordered by severity; `Malicious` is the
/// high-severity label that dominates a merge.
#[derive(Clone, Copy, PartialEq, Eq, Structural, Debug)]
pub enum Severity {
    Benign,
    Suspicious,
    Malicious,
}

/// The order of the labels.
pub open spec fn sev_rank(s: Severity) -> int {
    match s {
        Severity::Benign => 0,
        Severity::Suspicious => 1,
        Severity::Malicious => 2,
    }
}

/// The more severe of two labels.
pub open spec fn sev_max(a: Severity, b: Severity) -> Severity {
    if sev_rank(a) >= sev_rank(b) {
        a
    } else {
        b
    }
}

fn severity_rank(s: Severity) -> (r: u8)
    ensures
        r as int == sev_rank(s),
{
    match s {
        Severity::Benign => 0,
        Severity::Suspicious => 1,
        Severity::Malicious => 2,
    }
}

fn severity_max(a: Severity, b: Severity) -> (r: Severity)
    ensures
        r == sev_max(a, b),
{
    if severity_rank(a) >= severity_rank(b) {
        a
    } else {
        b
    }
}

/// Which engine produced a finding. Engine identity is data, so the merge can
/// say which engines contributed without type-based dispatch.
#[derive(Clone, Copy, PartialEq, Eq, Structural, Debug)]
pub enum EngineKind {
    Ml,
    Rules,
    Intel,
}

/// One engine's independent output: its tag, a severity label, a confidence
/// score on the engine's own scale, and an evidence code.
#[derive(Clone, Copy, PartialEq, Eq, Structural, Debug)]
pub struct EngineFinding {
    pub engine: EngineKind,
    pub severity: Severity,
    pub confidence: u32,
    pub scale: u32,
    pub evidence: u64,
}

impl EngineFinding {
    /// A finding's confidence lies on its own positive scale.
    pub open spec fn wf(self) -> bool {
        0 < self.scale && self.confidence <= self.scale
    }
}

/// A confidence brought to the common permille scale.
pub open spec fn spec_normalize(confidence: u32, scale: u32) -> int {
    confidence as int * 1000 / (scale as int)
}

/// Normalizes one engine confidence to the common permille scale.
pub fn normalize_confidence(confidence: u32, scale: u32) -> (r: u32)
    requires
        0 < scale,
        confidence <= scale,
    ensures
        r as int == spec_normalize(confidence, scale),
        r <= 1000,
{
    let wide: u64 = (confidence as u64) * 1000;
    let q: u64 = wide / (scale as u64);
    proof {
        assert(confidence as int * 1000 <= scale as int * 1000);
        vstd::arithmetic::div_mod::lemma_div_is_ordered(
            confidence as int * 1000,
            scale as int * 1000,
            scale as int,
        );
        vstd::arithmetic::div_mod::lemma_div_multiples_vanish(1000, scale as int);
    }
    q as u32
}

/// The severity a slot contributes to the merge: an absent engine
/// contributes the bottom label.
pub open spec fn opt_severity(o: Option<EngineFinding>) -> Severity {
    match o {
        Some(f) => f.severity,
        None => Severity::Benign,
    }
}

/// The dominance merge of the three slots' labels: the most severe label any
/// present finding carries.
pub open spec fn merged_classification(
    a: Option<EngineFinding>,
    b: Option<EngineFinding>,
    c: Option<EngineFinding>,
) -> Severity {
    sev_max(opt_severity(a), sev_max(opt_severity(b), opt_severity(c)))
}

/// How many engines contributed.
pub open spec fn present_count(
    a: Option<EngineFinding>,
    b: Option<EngineFinding>,
    c: Option<EngineFinding>,
) -> int {
    (if a is Some {
        1int
    } else {
        0int
    }) + (if b is Some {
        1int
    } else {
        0int
    }) + (if c is Some {
        1int
    } else {
        0int
    })
}

/// The normalized confidence a slot contributes toward a classification:
/// nothing unless the slot is present and carries exactly that label.
pub open spec fn conf_toward(o: Option<EngineFinding>, cls: Severity) -> int {
    match o {
        Some(f) => if f.severity == cls {
            spec_normalize(f.confidence, f.scale)
        } else {
            0
        },
        None => 0,
    }
}

pub open spec fn max3(x: int, y: int, z: int) -> int {
    if x >= y && x >= z {
        x
    } else if y >= z {
        y
    } else {
        z
    }
}

/// The merged confidence: the highest normalized confidence among the
/// findings that carry the merged classification.
pub open spec fn merged_confidence(
    a: Option<EngineFinding>,
    b: Option<EngineFinding>,
    c: Option<EngineFinding>,
) -> int {
    let cls = merged_classification(a, b, c);
    max3(conf_toward(a, cls), conf_toward(b, cls), conf_toward(c, cls))
}

/// The contributing findings, in slot order.
pub open spec fn opt_seq(o: Option<EngineFinding>) -> Seq<EngineFinding> {
    match o {
        Some(f) => seq![f],
        None => Seq::empty(),
    }
}

pub open spec fn findings_seq(
    a: Option<EngineFinding>,
    b: Option<EngineFinding>,
    c: Option<EngineFinding>,
) -> Seq<EngineFinding> {
    opt_seq(a) + opt_seq(b) + opt_seq(c)
}

/// The contributing findings as a set with multiplicity: what "the set of
/// completed findings" means to the merge.
pub open spec fn opt_multiset(o: Option<EngineFinding>) -> Multiset<EngineFinding> {
    match o {
        Some(f) => Multiset::empty().insert(f),
        None => Multiset::empty(),
    }
}

pub open spec fn findings_multiset(
    a: Option<EngineFinding>,
    b: Option<EngineFinding>,
    c: Option<EngineFinding>,
) -> Multiset<EngineFinding> {
    opt_multiset(a).add(opt_multiset(b)).add(opt_multiset(c))
}

/// The correlated result of one analysis: the merged classification and
/// confidence, whether fewer than all engines contributed, and every
/// contributing finding, kept for operator review.
#[derive(Debug)]
pub struct Analysis {
    pub classification: Severity,
    pub confidence: u32,
    pub partial: bool,
    pub findings: Vec<EngineFinding>,
}

/// Mathematical model of an analysis.
pub ghost struct AnalysisModel {
    pub classification: Severity,
    pub confidence: u32,
    pub partial: bool,
    pub findings: Seq<EngineFinding>,
}

impl View for Analysis {
    type V = AnalysisModel;

    open spec fn view(&self) -> AnalysisModel {
        AnalysisModel {
            classification: self.classification,
            confidence: self.confidence,
            partial: self.partial,
            findings: self.findings@,
        }
    }
}

/// The whole analysis the merge of three slots produces.
pub open spec fn spec_merged_analysis(
    a: Option<EngineFinding>,
    b: Option<EngineFinding>,
    c: Option<EngineFinding>,
) -> AnalysisModel {
    AnalysisModel {
        classification: merged_classification(a, b, c),
        confidence: merged_confidence(a, b, c) as u32,
        partial: present_count(a, b, c) < 3,
        findings: findings_seq(a, b, c),
    }
}

/// Why a whole analysis failed.
#[derive(Clone, Copy, PartialEq, Eq, Structural, Debug)]
pub enum AnalysisError {
    /// Every engine failed or timed out; there is nothing to merge.
    AllEnginesFailed,
}

/// Merges the three engines' slots into one `Analysis`. Succeeds whenever at
/// least one slot is present; fails with `AllEnginesFailed` exactly when all
/// three are absent. The merge is the severity-weighted union: the most
/// severe label present wins, the confidence is the best normalized
/// confidence behind that label, and every contributing finding is attached.
pub fn correlate_findings(
    ml: Option<EngineFinding>,
    rules: Option<EngineFinding>,
    intel: Option<EngineFinding>,
) -> (r: Result<Analysis, AnalysisError>)
    requires
        ml matches Some(f) ==> f.wf(),
        rules matches Some(f) ==> f.wf(),
        intel matches Some(f) ==> f.wf(),
    ensures
        (r is Ok) == (ml is Some || rules is Some || intel is Some),
        r is Err ==> r == Err::<Analysis, AnalysisError>(AnalysisError::AllEnginesFailed),
        r matches Ok(an) ==> {
            &&& an@.classification == merged_classification(ml, rules, intel)
            &&& an@.confidence as int == merged_confidence(ml, rules, intel)
            &&& an@.partial == (present_count(ml, rules, intel) < 3)
            &&& an@.findings == findings_seq(ml, rules, intel)
            &&& an@.findings.to_multiset() == findings_multiset(ml, rules, intel)
            &&& an@ == spec_merged_analysis(ml, rules, intel)
        },
{
    let mut findings: Vec<EngineFinding> = Vec::new();
    if let Some(f) = ml {
        findings.push(f);
    }
    if let Some(f) = rules {
        findings.push(f);
    }
    if let Some(f) = intel {
        findings.push(f);
    }
    proof {
        assert(findings@ =~= findings_seq(ml, rules, intel));
    }
    if findings.len() == 0 {
        return Err(AnalysisError::AllEnginesFailed);
    }
    let sa = match ml {
        Some(f) => f.severity,
        None => Severity::Benign,
    };
    let sb = match rules {
        Some(f) => f.severity,
        None => Severity::Benign,
    };
    let sc = match intel {
        Some(f) => f.severity,
        None => Severity::Benign,
    };
    let cls = severity_max(sa, severity_max(sb, sc));
    let mut confidence: u32 = 0;
    if let Some(f) = ml {
        if f.severity == cls {
            let n = normalize_confidence(f.confidence, f.scale);
            if n > confidence {
                confidence = n;
            }
        }
    }
    if let Some(f) = rules {
        if f.severity == cls {
            let n = normalize_confidence(f.confidence, f.scale);
            if n > confidence {
                confidence = n;
            }
        }
    }
    if let Some(f) = intel {
        if f.severity == cls {
            let n = normalize_confidence(f.confidence, f.scale);
            if n > confidence {
                confidence = n;
            }
        }
    }
    proof {
        lemma_conf_toward_nonneg(ml, cls);
        lemma_conf_toward_nonneg(rules, cls);
        lemma_conf_toward_nonneg(intel, cls);
        assert(confidence as int == merged_confidence(ml, rules, intel));
        lemma_findings_multiset(ml, rules, intel);
    }
    let partial = findings.len() < 3;
    Ok(Analysis { classification: cls, confidence, partial, findings })
}

/// A slot's contribution toward a classification is never negative.
proof fn lemma_conf_toward_nonneg(o: Option<EngineFinding>, cls: Severity)
    requires
        o matches Some(f) ==> f.wf(),
    ensures
        conf_toward(o, cls) >= 0,
{
    match o {
        Some(f) => {
            vstd::arithmetic::div_mod::lemma_div_pos_is_pos(f.confidence * 1000, f.scale as int);
        },
        None => {},
    }
}

/// The contributing findings as a sequence carry exactly the set of
/// completed findings.
proof fn lemma_findings_multiset(
    a: Option<EngineFinding>,
    b: Option<EngineFinding>,
    c: Option<EngineFinding>,
)
    ensures
        findings_seq(a, b, c).to_multiset() == findings_multiset(a, b, c),
{
    let s = findings_seq(a, b, c);
    let e = Seq::<EngineFinding>::empty();
    assert(e.to_multiset() =~= Multiset::<EngineFinding>::empty()) by {
        e.to_multiset_ensures();
        assert forall|x: EngineFinding| e.to_multiset().count(x) == 0 by {
            assert(!e.contains(x));
        }
    }
    match a {
        Some(fa) => {
            assert(opt_seq(a) =~= e.push(fa));
        },
        None => {
            assert(opt_seq(a) =~= e);
        },
    }
    let sa = opt_seq(a);
    assert(sa.to_multiset() =~= opt_multiset(a));
    match b {
        Some(fb) => {
            assert(sa + opt_seq(b) =~= sa.push(fb));
        },
        None => {
            assert(sa + opt_seq(b) =~= sa);
        },
    }
    let sab = sa + opt_seq(b);
    assert(sab.to_multiset() =~= opt_multiset(a).add(opt_multiset(b)));
    match c {
        Some(fc) => {
            assert(sab + opt_seq(c) =~= sab.push(fc));
        },
        None => {
            assert(sab + opt_seq(c) =~= sab);
        },
    }
    assert(s =~= sab + opt_seq(c));
    assert(s.to_multiset() =~= findings_multiset(a, b, c));
}

/// Dominance: if any single engine reports the high-severity label, the
/// merged classification is that label, whatever the other engines said.
pub proof fn lemma_high_severity_dominates(
    a: Option<EngineFinding>,
    b: Option<EngineFinding>,
    c: Option<EngineFinding>,
)
    requires
        (a matches Some(f) && f.severity is Malicious) || (b matches Some(f) && f.severity
            is Malicious) || (c matches Some(f) && f.severity is Malicious),
    ensures
        merged_classification(a, b, c) is Malicious,
{
}

/// The merge is a function of the set of completed findings alone: swapping
/// any two slots changes neither the classification, nor the confidence, nor
/// how many engines contributed, nor the set of attached findings. The two
/// stated swaps generate every permutation of the three slots.
pub proof fn lemma_merge_order_independent(
    a: Option<EngineFinding>,
    b: Option<EngineFinding>,
    c: Option<EngineFinding>,
)
    ensures
        merged_classification(a, b, c) == merged_classification(b, a, c),
        merged_classification(a, b, c) == merged_classification(a, c, b),
        merged_confidence(a, b, c) == merged_confidence(b, a, c),
        merged_confidence(a, b, c) == merged_confidence(a, c, b),
        present_count(a, b, c) == present_count(b, a, c),
        present_count(a, b, c) == present_count(a, c, b),
        findings_multiset(a, b, c) == findings_multiset(b, a, c),
        findings_multiset(a, b, c) == findings_multiset(a, c, b),
{
    assert(merged_classification(a, b, c) == merged_classification(b, a, c));
    assert(merged_classification(a, b, c) == merged_classification(a, c, b));
    assert(findings_multiset(a, b, c) =~= findings_multiset(b, a, c));
    assert(findings_multiset(a, b, c) =~= findings_multiset(a, c, b));
}

/// Permille score below which the model still labels a unit benign.
pub const ML_SUSPECT_FLOOR: u32 = 300;

/// The machine-learning engine: scores a payload by how much of it looks
/// anomalous, against a configured alert threshold.
pub struct MlEngine {
    /// Whether the model is loaded and answering.
    pub available: bool,
    /// Permille score at and above which the engine labels the unit
    /// high severity.
    pub threshold: u32,
}

/// How many payload bytes the model counts as anomalous.
pub open spec fn spec_hot_count(s: Seq<u8>) -> int
    decreases s.len(),
{
    if s.len() == 0 {
        0
    } else {
        spec_hot_count(s.drop_last()) + (if s.last() >= 0xE0 {
            1int
        } else {
            0int
        })
    }
}

/// The model's permille score: anomalous bytes, saturated at full scale.
pub open spec fn spec_ml_score(s: Seq<u8>) -> int {
    if spec_hot_count(s) >= 20 {
        1000
    } else {
        50 * spec_hot_count(s)
    }
}

impl MlEngine {
    pub open spec fn wf(self) -> bool {
        0 < self.threshold <= 1000
    }

    pub open spec fn spec_severity(self, payload: Seq<u8>) -> Severity {
        if spec_ml_score(payload) >= self.threshold {
            Severity::Malicious
        } else if spec_ml_score(payload) >= ML_SUSPECT_FLOOR {
            Severity::Suspicious
        } else {
            Severity::Benign
        }
    }

    pub open spec fn spec_finding(self, payload: Seq<u8>) -> EngineFinding {
        EngineFinding {
            engine: EngineKind::Ml,
            severity: self.spec_severity(payload),
            confidence: spec_ml_score(payload) as u32,
            scale: 1000,
            evidence: spec_hot_count(payload) as u64,
        }
    }

    /// What one invocation yields: absent exactly when the engine is down.
    pub open spec fn spec_outcome(self, payload: Seq<u8>) -> Option<EngineFinding> {
        if self.available {
            Some(self.spec_finding(payload))
        } else {
            None
        }
    }

    /// Scores one telemetry unit.
    pub fn analyze(&self, data: &AgentData) -> (r: Option<EngineFinding>)
        requires
            self.wf(),
        ensures
            r == self.spec_outcome(data@.payload),
            r matches Some(f) ==> f.wf(),
    {
        if !self.available {
            return None;
        }
        let payload = &data.payload;
        let n = payload.len();
        let mut count: usize = 0;
        let mut i: usize = 0;
        while i < n
            invariant
                self.wf(),
                self.available,
                i <= n,
                n == payload@.len(),
                count <= i,
                count as int == spec_hot_count(payload@.subrange(0, i as int)),
            decreases n - i,
        {
            proof {
                assert(payload@.subrange(0, i + 1 as int).drop_last() =~= payload@.subrange(
                    0,
                    i as int,
                ));
                assert(payload@.subrange(0, i + 1 as int).last() == payload@[i as int]);
            }
            if payload[i] >= 0xE0 {
                count += 1;
            }
            i += 1;
        }
        proof {
            assert(payload@.subrange(0, n as int) =~= payload@);
        }
        let score: u32 = if count >= 20 {
            1000
        } else {
            (count as u32) * 50
        };
        let severity = if score >= self.threshold {
            Severity::Malicious
        } else if score >= ML_SUSPECT_FLOOR {
            Severity::Suspicious
        } else {
            Severity::Benign
        };
        Some(
            EngineFinding {
                engine: EngineKind::Ml,
                severity,
                confidence: score,
                scale: 1000,
                evidence: count as u64,
            },
        )
    }
}

/// One static rule: a byte pattern, and the label and confidence the rule
/// assigns when a payload contains the pattern.
#[derive(Clone, Copy, PartialEq, Eq, Structural, Debug)]
pub struct Rule {
    pub pattern: u8,
    pub severity: Severity,
    pub confidence: u32,
}

/// A payload contains a pattern byte.
pub open spec fn spec_contains_byte(s: Seq<u8>, b: u8) -> bool {
    exists|i: int| 0 <= i < s.len() && s[i] == b
}

/// Whether a matching rule outranks the verdict so far: strictly more severe,
/// or equally severe and strictly more confident.
pub open spec fn rule_beats(r: Rule, prev: Rule) -> bool {
    sev_rank(r.severity) > sev_rank(prev.severity) || (r.severity == prev.severity && r.confidence
        > prev.confidence)
}

/// The verdict the rule set reaches on a payload: starting from a benign
/// zero-confidence default, each matching rule that outranks the verdict so
/// far replaces it.
pub open spec fn spec_rules_verdict(rules: Seq<Rule>, payload: Seq<u8>) -> Rule
    decreases rules.len(),
{
    if rules.len() == 0 {
        Rule { pattern: 0, severity: Severity::Benign, confidence: 0 }
    } else {
        let prev = spec_rules_verdict(rules.drop_last(), payload);
        let r = rules.last();
        if spec_contains_byte(payload, r.pattern) && rule_beats(r, prev) {
            r
        } else {
            prev
        }
    }
}

/// The verdict's confidence never exceeds the rule scale.
proof fn lemma_rules_verdict_wf(rules: Seq<Rule>, payload: Seq<u8>)
    requires
        forall|i: int| 0 <= i < rules.len() ==> (#[trigger] rules[i]).confidence <= 100,
    ensures
        spec_rules_verdict(rules, payload).confidence <= 100,
    decreases rules.len(),
{
    if rules.len() > 0 {
        assert(forall|i: int|
            0 <= i < rules.drop_last().len() ==> (#[trigger] rules.drop_last()[i]).confidence
                <= 100);
        lemma_rules_verdict_wf(rules.drop_last(), payload);
        assert(rules.last() == rules[rules.len() - 1]);
    }
}

/// Reports whether `payload` contains the byte `b`.
pub fn contains_byte(payload: &Vec<u8>, b: u8) -> (r: bool)
    ensures
        r == spec_contains_byte(payload@, b),
{
    let mut i: usize = 0;
    let n = payload.len();
    while i < n
        invariant
            i <= n,
            n == payload@.len(),
            forall|j: int| 0 <= j < i ==> payload@[j] != b,
        decreases n - i,
    {
        if payload[i] == b {
            return true;
        }
        i += 1;
    }
    false
}

/// The static rules engine: a rule set applied to each payload.
pub struct RulesEngine {
    /// Whether the engine is switched on and answering.
    pub enabled: bool,
    pub rules: Vec<Rule>,
}

impl RulesEngine {
    /// Every rule's confidence lies on the engine's percent scale.
    pub open spec fn wf(self) -> bool {
        forall|i: int| 0 <= i < self.rules@.len() ==> (#[trigger] self.rules@[i]).confidence <= 100
    }

    pub open spec fn spec_finding(self, payload: Seq<u8>) -> EngineFinding {
        EngineFinding {
            engine: EngineKind::Rules,
            severity: spec_rules_verdict(self.rules@, payload).severity,
            confidence: spec_rules_verdict(self.rules@, payload).confidence,
            scale: 100,
            evidence: spec_rules_verdict(self.rules@, payload).pattern as u64,
        }
    }

    /// What one invocation yields: absent exactly when the engine is down.
    pub open spec fn spec_outcome(self, payload: Seq<u8>) -> Option<EngineFinding> {
        if self.enabled {
            Some(self.spec_finding(payload))
        } else {
            None
        }
    }

    /// Adds one rule; refuses a confidence off the engine's scale.
    pub fn add_rule(&mut self, rule: Rule) -> (accepted: bool)
        requires
            old(self).wf(),
        ensures
            final(self).wf(),
            accepted == (rule.confidence <= 100),
            accepted ==> final(self).rules@ == old(self).rules@.push(rule) && final(self).enabled
                == old(self).enabled,
            !accepted ==> *final(self) == *old(self),
    {
        if rule.confidence > 100 {
            return false;
        }
        self.rules.push(rule);
        true
    }

    /// Checks one telemetry unit against the rule set.
    pub fn check(&self, data: &AgentData) -> (r: Option<EngineFinding>)
        requires
            self.wf(),
        ensures
            r == self.spec_outcome(data@.payload),
            r matches Some(f) ==> f.wf(),
    {
        if !self.enabled {
            return None;
        }
        let payload = &data.payload;
        let mut best = Rule { pattern: 0, severity: Severity::Benign, confidence: 0 };
        let mut i: usize = 0;
        let n = self.rules.len();
        while i < n
            invariant
                i <= n,
                n == self.rules@.len(),
                self.wf(),
                self.enabled,
                best == spec_rules_verdict(self.rules@.subrange(0, i as int), payload@),
            decreases n - i,
        {
            proof {
                assert(self.rules@.subrange(0, i + 1 as int).drop_last() =~= self.rules@.subrange(
                    0,
                    i as int,
                ));
                assert(self.rules@.subrange(0, i + 1 as int).last() == self.rules@[i as int]);
            }
            let r = self.rules[i];
            if contains_byte(payload, r.pattern) {
                let beats = severity_rank(r.severity) > severity_rank(best.severity) || (r.severity
                    == best.severity && r.confidence > best.confidence);
                if beats {
                    best = r;
                }
            }
            i += 1;
        }
        proof {
            assert(self.rules@.subrange(0, n as int) =~= self.rules@);
            lemma_rules_verdict_wf(self.rules@, payload@);
        }
        Some(
            EngineFinding {
                engine: EngineKind::Rules,
                severity: best.severity,
                confidence: best.confidence,
                scale: 100,
                evidence: best.pattern as u64,
            },
        )
    }
}

/// The key under which payload digests are computed for intelligence lookup.
pub const INTEL_DIGEST_KEY: u64 = 0x1D;

/// One threat-intelligence entry: a known payload digest with the label and
/// confidence the feed assigns it.
#[derive(Clone, Copy, PartialEq, Eq, Structural, Debug)]
pub struct Indicator {
    pub digest: u64,
    pub severity: Severity,
    pub confidence: u32,
}

/// The threat-intelligence lookup service: known indicators keyed by payload
/// digest.
pub struct IntelEngine {
    /// Whether the feed answers within its deadline.
    pub reachable: bool,
    pub indicators: Vec<Indicator>,
}

impl IntelEngine {
    /// Confidences lie on the feed's ten-point scale, and each digest has at
    /// most one entry.
    pub open spec fn wf(self) -> bool {
        &&& forall|i: int|
            0 <= i < self.indicators@.len() ==> (#[trigger] self.indicators@[i]).confidence <= 10
        &&& forall|i: int, j: int|
            0 <= i < self.indicators@.len() && 0 <= j < self.indicators@.len() && i != j
                ==> (#[trigger] self.indicators@[i]).digest
                != (#[trigger] self.indicators@[j]).digest
    }

    pub open spec fn spec_has_indicator(self, digest: u64) -> bool {
        exists|i: int|
            0 <= i < self.indicators@.len() && (#[trigger] self.indicators@[i]).digest == digest
    }

    pub open spec fn spec_indicator_index(self, digest: u64) -> int {
        choose|i: int|
            0 <= i < self.indicators@.len() && (#[trigger] self.indicators@[i]).digest == digest
    }

    pub open spec fn spec_indicator_for(self, digest: u64) -> Indicator {
        self.indicators@[self.spec_indicator_index(digest)]
    }

    pub open spec fn spec_finding(self, payload: Seq<u8>) -> EngineFinding {
        let digest = spec_mac(INTEL_DIGEST_KEY, payload);
        if self.spec_has_indicator(digest) {
            EngineFinding {
                engine: EngineKind::Intel,
                severity: self.spec_indicator_for(digest).severity,
                confidence: self.spec_indicator_for(digest).confidence,
                scale: 10,
                evidence: digest,
            }
        } else {
            EngineFinding {
                engine: EngineKind::Intel,
                severity: Severity::Benign,
                confidence: 5,
                scale: 10,
                evidence: digest,
            }
        }
    }

    /// What one invocation yields: absent exactly when the feed is down.
    pub open spec fn spec_outcome(self, payload: Seq<u8>) -> Option<EngineFinding> {
        if self.reachable {
            Some(self.spec_finding(payload))
        } else {
            None
        }
    }

    /// Adds one indicator; refuses a duplicate digest or a confidence off
    /// the feed's scale.
    pub fn add_indicator(&mut self, ind: Indicator) -> (accepted: bool)
        requires
            old(self).wf(),
        ensures
            final(self).wf(),
            accepted == (ind.confidence <= 10 && !old(self).spec_has_indicator(ind.digest)),
            accepted ==> final(self).indicators@ == old(self).indicators@.push(ind)
                && final(self).reachable == old(self).reachable,
            !accepted ==> final(self).indicators@ == old(self).indicators@
                && final(self).reachable == old(self).reachable,
    {
        if ind.confidence > 10 {
            return false;
        }
        let mut i: usize = 0;
        let n = self.indicators.len();
        while i < n
            invariant
                self.indicators@ == old(self).indicators@,
                self.reachable == old(self).reachable,
                self.wf(),
                ind.confidence <= 10,
                i <= n,
                n == self.indicators@.len(),
                forall|j: int| 0 <= j < i ==> (#[trigger] self.indicators@[j]).digest != ind.digest,
            decreases n - i,
        {
            if self.indicators[i].digest == ind.digest {
                proof {
                    assert(old(self).spec_has_indicator(ind.digest));
                }
                return false;
            }
            i += 1;
        }
        proof {
            assert(!old(self).spec_has_indicator(ind.digest));
        }
        let ghost before = self.indicators@;
        self.indicators.push(ind);
        proof {
            assert forall|p: int, q: int|
                0 <= p < self.indicators@.len() && 0 <= q < self.indicators@.len() && p
                    != q implies (#[trigger] self.indicators@[p]).digest
                != (#[trigger] self.indicators@[q]).digest by {
                if p < before.len() && q < before.len() {
                    assert(self.indicators@[p] == before[p]);
                    assert(self.indicators@[q] == before[q]);
                } else if p == before.len() {
                    assert(self.indicators@[q] == before[q]);
                } else {
                    assert(self.indicators@[p] == before[p]);
                }
            }
        }
        true
    }

    /// Looks one telemetry unit's digest up in the feed.
    pub fn lookup(&self, data: &AgentData) -> (r: Option<EngineFinding>)
        requires
            self.wf(),
        ensures
            r == self.spec_outcome(data@.payload),
            r matches Some(f) ==> f.wf(),
    {
        if !self.reachable {
            return None;
        }
        let digest = mac_bytes(INTEL_DIGEST_KEY, &data.payload);
        let mut i: usize = 0;
        let n = self.indicators.len();
        while i < n
            invariant
                self.wf(),
                self.reachable,
                i <= n,
                n == self.indicators@.len(),
                digest == spec_mac(INTEL_DIGEST_KEY, data@.payload),
                forall|j: int| 0 <= j < i ==> (#[trigger] self.indicators@[j]).digest != digest,
            decreases n - i,
        {
            if self.indicators[i].digest == digest {
                let ind = self.indicators[i];
                proof {
                    assert(self.spec_has_indicator(digest));
                    let k = self.spec_indicator_index(digest);
                    assert(0 <= k < self.indicators@.len() && self.indicators@[k].digest == digest);
                    assert(k == i as int);
                }
                return Some(
                    EngineFinding {
                        engine: EngineKind::Intel,
                        severity: ind.severity,
                        confidence: ind.confidence,
                        scale: 10,
                        evidence: digest,
                    },
                );
            }
            i += 1;
        }
        Some(
            EngineFinding {
                engine: EngineKind::Intel,
                severity: Severity::Benign,
                confidence: 5,
                scale: 10,
                evidence: digest,
            },
        )
    }
}

/// The threat correlator: the three engines behind one uniform contract.
pub struct ThreatAnalyzer {
    pub ml_engine: MlEngine,
    pub rules_engine: RulesEngine,
    pub threat_intel: IntelEngine,
}

impl ThreatAnalyzer {
    pub open spec fn wf(self) -> bool {
        &&& self.ml_engine.wf()
        &&& self.rules_engine.wf()
        &&& self.threat_intel.wf()
    }

    /// Runs the three engines on one telemetry unit, each in its own failure
    /// domain, and merges whatever subset succeeded. Succeeds exactly when at
    /// least one engine is up; fails with `AllEnginesFailed` only when all
    /// three are down.
    pub fn analyze_threats(&self, data: &AgentData) -> (r: Result<Analysis, AnalysisError>)
        requires
            self.wf(),
        ensures
            (r is Ok) == (self.ml_engine.available || self.rules_engine.enabled
                || self.threat_intel.reachable),
            r is Err ==> r == Err::<Analysis, AnalysisError>(AnalysisError::AllEnginesFailed),
            r matches Ok(an) ==> {
                let ml = self.ml_engine.spec_outcome(data@.payload);
                let ru = self.rules_engine.spec_outcome(data@.payload);
                let ti = self.threat_intel.spec_outcome(data@.payload);
                &&& an@.classification == merged_classification(ml, ru, ti)
                &&& an@.confidence as int == merged_confidence(ml, ru, ti)
                &&& an@.partial == (present_count(ml, ru, ti) < 3)
                &&& an@.findings == findings_seq(ml, ru, ti)
                &&& an@ == spec_merged_analysis(ml, ru, ti)
            },
    {
        let ml = self.ml_engine.analyze(data);
        let ru = self.rules_engine.check(data);
        let ti = self.threat_intel.lookup(data);
        correlate_findings(ml, ru, ti)
    }
}

} // verus!
