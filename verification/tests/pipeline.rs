use control_plane::agent_data::{encode_agent_data, AgentData};
use control_plane::analyzer::{
    correlate_findings, normalize_confidence, AnalysisError, EngineFinding, EngineKind, Indicator,
    IntelEngine, MlEngine, Rule, RulesEngine, Severity, ThreatAnalyzer, INTEL_DIGEST_KEY,
};
use control_plane::channel::Channel;
use control_plane::command_service::{
    command_bytes, verify_command_signature, AuditOutcome, CommandError, CommandKind,
    CommandRequest, CommandService, ResponseStatus, SignedCommand,
};
use control_plane::crypto::{decrypt, mac_bytes, CipherSuite};
use control_plane::server::{Database, SecurityServer, ServerError, StorageError};

fn analyzer_with(ml: bool, rules: bool, intel: bool) -> ThreatAnalyzer {
    ThreatAnalyzer {
        ml_engine: MlEngine {
            available: ml,
            threshold: 500,
        },
        rules_engine: RulesEngine {
            enabled: rules,
            rules: Vec::new(),
        },
        threat_intel: IntelEngine {
            reachable: intel,
            indicators: Vec::new(),
        },
    }
}

fn unit(payload: Vec<u8>) -> AgentData {
    AgentData {
        agent_id: 7,
        timestamp: 1,
        sequence: 1,
        payload,
    }
}

fn live_channel(agent_id: u64, responsive: bool) -> Channel {
    Channel {
        agent_id,
        suite: CipherSuite::StreamXor,
        key: vec![13, 37],
        open: true,
        responsive,
        outbound: Vec::new(),
    }
}

fn quarantine_request(user_id: u64, agent_id: u64) -> CommandRequest {
    CommandRequest {
        user_id,
        agent_id,
        kind: CommandKind::Quarantine,
        payload: vec![1, 2],
    }
}

#[test]
fn partial_analysis_with_dominant_intel_finding() {
    // An agent submits a unit; the model sees it as benign with low
    // confidence, the rules engine is down, and the intelligence feed knows
    // the payload digest as malicious with high confidence.
    let payload = vec![0xEE, 0xEE, 1, 2];
    let digest = mac_bytes(INTEL_DIGEST_KEY, &payload);
    let mut analyzer = analyzer_with(true, false, true);
    assert!(analyzer.threat_intel.add_indicator(Indicator {
        digest,
        severity: Severity::Malicious,
        confidence: 9,
    }));
    let analysis = analyzer.analyze_threats(&unit(payload)).expect("one engine is enough");
    assert_eq!(analysis.classification, Severity::Malicious);
    assert!(analysis.partial);
    assert_eq!(analysis.findings.len(), 2);
    assert_eq!(analysis.findings[0].engine, EngineKind::Ml);
    assert_eq!(analysis.findings[0].severity, Severity::Benign);
    assert_eq!(analysis.findings[0].confidence, 100);
    assert_eq!(analysis.findings[1].engine, EngineKind::Intel);
    assert_eq!(analysis.findings[1].severity, Severity::Malicious);
    assert_eq!(analysis.confidence, 900);
}

#[test]
fn all_engines_failed_is_the_only_whole_failure() {
    let analyzer = analyzer_with(false, false, false);
    let r = analyzer.analyze_threats(&unit(vec![1, 2, 3]));
    assert_eq!(r.err(), Some(AnalysisError::AllEnginesFailed));
}

#[test]
fn one_engine_suffices_and_marks_partial() {
    let analyzer = analyzer_with(true, false, false);
    let analysis = analyzer.analyze_threats(&unit(vec![1, 2, 3])).unwrap();
    assert!(analysis.partial);
    assert_eq!(analysis.findings.len(), 1);
    assert_eq!(analysis.classification, Severity::Benign);
}

#[test]
fn full_analysis_is_not_partial() {
    let analyzer = analyzer_with(true, true, true);
    let analysis = analyzer.analyze_threats(&unit(vec![1, 2, 3])).unwrap();
    assert!(!analysis.partial);
    assert_eq!(analysis.findings.len(), 3);
}

#[test]
fn single_high_severity_engine_dominates() {
    let mut analyzer = analyzer_with(true, true, true);
    assert!(analyzer.rules_engine.add_rule(Rule {
        pattern: 0x42,
        severity: Severity::Malicious,
        confidence: 80,
    }));
    let analysis = analyzer.analyze_threats(&unit(vec![0x42, 1])).unwrap();
    assert_eq!(analysis.classification, Severity::Malicious);
    assert_eq!(analysis.confidence, 800);
    assert!(!analysis.partial);
}

#[test]
fn merge_ignores_completion_order() {
    let low = EngineFinding {
        engine: EngineKind::Ml,
        severity: Severity::Suspicious,
        confidence: 400,
        scale: 1000,
        evidence: 1,
    };
    let high = EngineFinding {
        engine: EngineKind::Intel,
        severity: Severity::Malicious,
        confidence: 9,
        scale: 10,
        evidence: 2,
    };
    let one = correlate_findings(Some(low), Some(high), None).unwrap();
    let two = correlate_findings(Some(high), None, Some(low)).unwrap();
    assert_eq!(one.classification, two.classification);
    assert_eq!(one.confidence, two.confidence);
    assert_eq!(one.partial, two.partial);
}

#[test]
fn rules_engine_keeps_highest_confidence_match() {
    let mut engine = RulesEngine {
        enabled: true,
        rules: Vec::new(),
    };
    assert!(engine.add_rule(Rule {
        pattern: 0x10,
        severity: Severity::Suspicious,
        confidence: 40,
    }));
    assert!(engine.add_rule(Rule {
        pattern: 0x20,
        severity: Severity::Suspicious,
        confidence: 70,
    }));
    let finding = engine.check(&unit(vec![0x10, 0x20])).unwrap();
    assert_eq!(finding.severity, Severity::Suspicious);
    assert_eq!(finding.confidence, 70);
    assert_eq!(finding.evidence, 0x20);
}

#[test]
fn saturated_model_score_is_malicious() {
    let analyzer = analyzer_with(true, false, false);
    let analysis = analyzer.analyze_threats(&unit(vec![0xF0; 25])).unwrap();
    assert_eq!(analysis.classification, Severity::Malicious);
    assert_eq!(analysis.confidence, 1000);
}

#[test]
fn confidence_normalization_exact_values() {
    assert_eq!(normalize_confidence(9, 10), 900);
    assert_eq!(normalize_confidence(1, 3), 333);
    assert_eq!(normalize_confidence(100, 1000), 100);
    assert_eq!(normalize_confidence(0, 10), 0);
    assert_eq!(normalize_confidence(10, 10), 1000);
}

#[test]
fn denied_operator_sends_nothing_and_is_audited() {
    // An operator without the quarantine permission addresses agent 2: the
    // command is refused, one denial record is appended, and not a byte
    // reaches the agent.
    let mut service = CommandService::new(99);
    service.agent_manager.register(live_channel(2, true));
    let r = service.execute_command(&quarantine_request(5, 2));
    assert_eq!(r.err(), Some(CommandError::PermissionDenied));
    assert_eq!(service.audit_logger.records.len(), 1);
    let rec = service.audit_logger.records[0];
    assert_eq!(rec.outcome, AuditOutcome::Denied);
    assert_eq!(rec.user_id, 5);
    assert_eq!(rec.agent_id, 2);
    assert_eq!(rec.kind, CommandKind::Quarantine);
    assert_eq!(service.agent_manager.channels[0].outbound.len(), 0);
}

#[test]
fn every_outcome_appends_exactly_one_audit_record() {
    let mut service = CommandService::new(99);
    service.permission_manager.grant(5, CommandKind::Quarantine);

    // Denied: user 6 holds no grant.
    let r = service.execute_command(&quarantine_request(6, 2));
    assert!(r.is_err());
    assert_eq!(service.audit_logger.records.len(), 1);
    assert_eq!(service.audit_logger.records[0].outcome, AuditOutcome::Denied);

    // No live channel for agent 2.
    let r = service.execute_command(&quarantine_request(5, 2));
    assert_eq!(r.err(), Some(CommandError::DispatchFailed));
    assert_eq!(service.audit_logger.records.len(), 2);
    assert_eq!(service.audit_logger.records[1].outcome, AuditOutcome::NoChannel);

    // A channel that never answers.
    service.agent_manager.register(live_channel(2, false));
    let r = service.execute_command(&quarantine_request(5, 2));
    assert_eq!(r.err(), Some(CommandError::DispatchTimeout));
    assert_eq!(service.audit_logger.records.len(), 3);
    assert_eq!(service.audit_logger.records[2].outcome, AuditOutcome::TimedOut);

    // A responsive channel.
    service.agent_manager.register(live_channel(2, true));
    let r = service.execute_command(&quarantine_request(5, 2));
    assert!(r.is_ok());
    assert_eq!(service.audit_logger.records.len(), 4);
    assert_eq!(service.audit_logger.records[3].outcome, AuditOutcome::Succeeded);
}

#[test]
fn executed_command_is_signed_and_encrypted_for_one_agent() {
    let mut service = CommandService::new(99);
    service.permission_manager.grant(5, CommandKind::Quarantine);
    service.agent_manager.register(live_channel(2, true));
    service.agent_manager.register(live_channel(3, true));
    let request = quarantine_request(5, 2);
    let response = service.execute_command(&request).expect("all gates pass");
    assert_eq!(response.request_id, 0);
    assert_eq!(response.status, ResponseStatus::Completed);

    // Exactly one message went out, to agent 2 alone.
    let two = service
        .agent_manager
        .channels
        .iter()
        .find(|c| c.agent_id == 2)
        .unwrap();
    let three = service
        .agent_manager
        .channels
        .iter()
        .find(|c| c.agent_id == 3)
        .unwrap();
    assert_eq!(two.outbound.len(), 1);
    assert_eq!(three.outbound.len(), 0);

    // The message decrypts to the canonical command bytes plus a signature
    // the service key validates.
    let wire = decrypt(two.suite, &two.key, &two.outbound[0]);
    let body = command_bytes(0, 2, CommandKind::Quarantine, &request.payload);
    assert_eq!(&wire[..body.len()], &body[..]);
    let mut sig_bytes = [0u8; 8];
    sig_bytes.copy_from_slice(&wire[body.len()..]);
    let signed = SignedCommand {
        request_id: 0,
        agent_id: 2,
        kind: CommandKind::Quarantine,
        payload: request.payload.clone(),
        signature: u64::from_le_bytes(sig_bytes),
    };
    assert!(verify_command_signature(99, &signed));
    assert!(!verify_command_signature(98, &signed));
}

#[test]
fn permission_gate_follows_grants() {
    let mut service = CommandService::new(1);
    assert!(service
        .validate_user_permissions(5, CommandKind::Quarantine)
        .is_err());
    service.permission_manager.grant(5, CommandKind::Quarantine);
    assert!(service
        .validate_user_permissions(5, CommandKind::Quarantine)
        .is_ok());
    assert!(service
        .validate_user_permissions(5, CommandKind::RestartAgent)
        .is_err());
}

fn telemetry_server(ml: bool, rules: bool, intel: bool) -> SecurityServer {
    SecurityServer {
        analyzer: analyzer_with(ml, rules, intel),
        database: Database::new(),
        suite: CipherSuite::StreamXor,
        session_key: vec![9, 8, 7],
    }
}

fn encrypted_unit(server: &SecurityServer, payload: Vec<u8>) -> Vec<u8> {
    let wire = encode_agent_data(&unit(payload));
    control_plane::crypto::encrypt(server.suite, &server.session_key, &wire)
}

#[test]
fn telemetry_is_decrypted_analyzed_and_stored() {
    let mut server = telemetry_server(true, false, true);
    let ciphertext = encrypted_unit(&server, vec![1, 2, 3]);
    let r = server.handle_agent_data(&ciphertext);
    assert_eq!(r, Ok(()));
    assert_eq!(server.database.analyses.len(), 1);
    assert!(server.database.analyses[0].partial);
}

#[test]
fn garbled_telemetry_is_refused() {
    let mut server = telemetry_server(true, false, true);
    let r = server.handle_agent_data(&vec![1, 2, 3]);
    assert_eq!(r, Err(ServerError::MalformedData));
    assert_eq!(server.database.analyses.len(), 0);
}

#[test]
fn telemetry_with_every_engine_down_fails_whole() {
    let mut server = telemetry_server(false, false, false);
    let ciphertext = encrypted_unit(&server, vec![1, 2, 3]);
    let r = server.handle_agent_data(&ciphertext);
    assert_eq!(r, Err(ServerError::AllEnginesFailed));
    assert_eq!(server.database.analyses.len(), 0);
}

#[test]
fn storage_failure_is_surfaced_not_swallowed() {
    let mut server = telemetry_server(true, false, true);
    server.database.healthy = false;
    let ciphertext = encrypted_unit(&server, vec![1, 2, 3]);
    let r = server.handle_agent_data(&ciphertext);
    assert_eq!(r, Err(ServerError::StorageFailed));
    assert_eq!(server.database.analyses.len(), 0);
}

#[test]
fn timed_out_dispatch_still_sends_exactly_one_message() {
    let mut service = CommandService::new(99);
    service.permission_manager.grant(5, CommandKind::Quarantine);
    service.agent_manager.register(live_channel(2, false));
    let r = service.execute_command(&quarantine_request(5, 2));
    assert_eq!(r.err(), Some(CommandError::DispatchTimeout));
    assert_eq!(service.agent_manager.channels[0].outbound.len(), 1);
}

#[test]
fn duplicate_indicator_digest_refused() {
    let mut engine = IntelEngine {
        reachable: true,
        indicators: Vec::new(),
    };
    let ind = Indicator {
        digest: 5,
        severity: Severity::Malicious,
        confidence: 9,
    };
    assert!(engine.add_indicator(ind));
    assert!(!engine.add_indicator(Indicator {
        digest: 5,
        severity: Severity::Benign,
        confidence: 1,
    }));
    assert_eq!(engine.indicators.len(), 1);
    assert!(!engine.add_indicator(Indicator {
        digest: 6,
        severity: Severity::Benign,
        confidence: 11,
    }));
}

#[test]
fn unavailable_store_refuses_and_keeps_nothing() {
    let mut db = Database::new();
    db.healthy = false;
    let analyzer = analyzer_with(true, false, false);
    let analysis = analyzer.analyze_threats(&unit(vec![1])).unwrap();
    assert_eq!(db.store_analysis(analysis), Err(StorageError::Unavailable));
    assert_eq!(db.analyses.len(), 0);
}
