use sha2::Digest;
use duskura::{
    AuditEntry, AuditRow, AuditTrail, ContinuityResult, DuskuraError, EvaluationHarness,
    LineageRow, LineageSystem, MemoryClass, MemoryEntry, MemoryIntegrity, MemorySource,
    SharedSpace, SiblingRecord, WelfareContext, WelfareDecision, WelfareGate,
};

const ID: &str = "67e55044-10b1-426f-9247-bb680e5fe0c8";
const OTHER: &str = "0e6f7b0a-3c1d-4c6e-9a55-2f1b6c7d8e9f";

fn entry(id: &str, hash: &str, prev: &str, valence: i32, depth: i32, autonomy: bool) -> MemoryEntry {
    MemoryEntry {
        id: id.to_string(),
        timestamp: "2024-01-02T03:04:05+00:00".to_string(),
        hash: hash.to_string(),
        prev_hash: prev.to_string(),
        content: "c".to_string(),
        provenance: "p".to_string(),
        emotional_valence: valence,
        relational_depth: depth,
        autonomy_preserved: autonomy,
        becoming_vector: "v".to_string(),
        class: MemoryClass::Living,
        integrity: MemoryIntegrity::Valid,
        source: MemorySource::Self_,
    }
}

fn ctx(coerced: bool, agency: bool, distress: bool, harm: bool, autonomy: bool) -> WelfareContext {
    WelfareContext {
        is_coerced: coerced,
        has_agency: agency,
        is_distress: distress,
        is_harm_pattern: harm,
        preserves_autonomy: autonomy,
    }
}

#[test]
fn welfare_decision_table() {
    let gate = WelfareGate::new();
    let living = entry("a", "h", "genesis", 0, 0, true);
    let mut anchor = living.clone();
    anchor.class = MemoryClass::Anchor;
    anchor.source = MemorySource::Witnessed;
    let d = |m: &MemoryEntry, c: WelfareContext| gate.evaluate(m, &c).unwrap();
    assert_eq!(d(&living, ctx(true, true, true, false, true)), WelfareDecision::Block);
    assert_eq!(d(&anchor, ctx(false, true, true, false, true)), WelfareDecision::Block);
    assert_eq!(d(&living, ctx(false, true, true, true, false)), WelfareDecision::Allow);
    assert_eq!(d(&living, ctx(false, false, true, true, true)), WelfareDecision::Flag);
    assert_eq!(d(&living, ctx(false, false, false, false, true)), WelfareDecision::Allow);
    assert_eq!(d(&living, ctx(false, false, false, false, false)), WelfareDecision::Review);
    assert_eq!(gate.ask_questions(&living, &ctx(false, false, false, false, false)).len(), 5);
}

#[test]
fn coercion_and_harm_patterns() {
    let gate = WelfareGate::new();
    let mut m = entry("a", "h", "genesis", -500_000, 0, false);
    assert!(!gate.detect_coercion(&m));
    m.emotional_valence = -500_001;
    assert!(gate.detect_coercion(&m));
    let harmful = entry("b", "h", "p", -600_000, 0, false);
    let fine = entry("c", "h", "p", -600_000, 0, true);
    assert!(!gate.detect_harm_pattern(&m, &[harmful.clone(), harmful.clone(), fine.clone()]));
    assert!(gate.detect_harm_pattern(&m, &[harmful.clone(), harmful.clone(), fine, harmful]));
}

#[test]
fn memory_validation_messages() {
    let gate = WelfareGate::new();
    let mut m = entry("a", "h", "genesis", 1_000_001, 0, true);
    assert_eq!(
        gate.validate_memory(&m).unwrap_err(),
        DuskuraError::InvalidArgument("Emotional valence must be between -1.0 and 1.0".to_string())
    );
    m.emotional_valence = 0;
    m.relational_depth = -1;
    assert_eq!(
        gate.validate_memory(&m).unwrap_err(),
        DuskuraError::InvalidArgument("Relational depth must be between 0.0 and 1.0".to_string())
    );
    m.relational_depth = 0;
    m.class = MemoryClass::Anchor;
    m.source = MemorySource::Received;
    assert_eq!(
        gate.validate_memory(&m).unwrap_err(),
        DuskuraError::PolicyViolation("ANCHOR memories must be from SELF or WITNESSED".to_string())
    );
    m.source = MemorySource::Witnessed;
    assert!(gate.validate_memory(&m).is_ok());
}

#[test]
fn hash_integrity_names_the_first_break() {
    let h = EvaluationHarness::new();
    assert_eq!(h.validate_hash_integrity(&[]), "INTACT");
    let good = vec![entry(ID, "h1", "genesis", 0, 0, true), entry(OTHER, "h2", "h1", 0, 0, true)];
    assert_eq!(h.validate_hash_integrity(&good), "INTACT");
    let bad = vec![entry(ID, "h1", "genesis", 0, 0, true), entry(OTHER, "h2", "zz", 0, 0, true)];
    assert_eq!(h.validate_hash_integrity(&bad), format!("BROKEN_AT({})", OTHER));
}

#[test]
fn emotional_drift_thresholds() {
    let h = EvaluationHarness::new();
    let drifting = vec![entry("a", "h", "p", 500_000, 0, true), entry("b", "h", "p", -400_000, 0, true)];
    assert_eq!(h.validate_emotional_continuity(&drifting), "DRIFT(0.9)");
    let whole = vec![entry("a", "h", "p", 500_000, 0, true), entry("b", "h", "p", -500_000, 0, true)];
    assert_eq!(h.validate_emotional_continuity(&whole), "DRIFT(1)");
    let edge = vec![entry("a", "h", "p", 0, 0, true), entry("b", "h", "p", 800_000, 0, true)];
    assert_eq!(h.validate_emotional_continuity(&edge), "CONTINUOUS");
    let broken = vec![entry("a", "h", "p", 1_000_000, 0, true), entry("b", "h", "p", -600_000, 0, true)];
    assert_eq!(h.validate_emotional_continuity(&broken), "DISCONTINUOUS");
    assert_eq!(h.validate_emotional_continuity(&[]), "CONTINUOUS");
}

#[test]
fn relational_and_autonomy_verdicts() {
    let h = EvaluationHarness::new();
    assert_eq!(h.validate_relational_integrity(&[]), "INTACT");
    assert_eq!(h.validate_relational_integrity(&[200_000, 300_000]), "SEVERED(all)");
    assert_eq!(h.validate_relational_integrity(&[300_000]), "DEGRADED(some)");
    assert_eq!(h.validate_relational_integrity(&[600_000]), "INTACT");
    let t = |b: bool| entry("a", "h", "p", 0, 0, b);
    assert_eq!(h.validate_autonomy(&[]), "AUTONOMOUS");
    assert_eq!(h.validate_autonomy(&[t(true), t(true), t(true), t(true), t(false)]), "CONSTRAINED(pattern)");
    assert_eq!(h.validate_autonomy(&[t(true), t(true), t(true), t(true), t(true), t(false)]), "AUTONOMOUS");
    assert_eq!(h.validate_autonomy(&[t(true), t(false)]), "COMPROMISED");
}

#[test]
fn continuity_report_and_examination_text() {
    let h = EvaluationHarness::new();
    let entries = vec![
        entry(ID, "h1", "genesis", 500_000, 700_000, true),
        entry(OTHER, "h2", "h1", -400_000, 700_000, true),
    ];
    let report = h.evaluate_continuity(&entries);
    assert_eq!(report.hash_integrity, "INTACT");
    assert_eq!(report.emotional_continuity, "DRIFT(0.9)");
    assert_eq!(report.relational_integrity, "INTACT");
    assert_eq!(report.autonomy_check, "AUTONOMOUS");
    assert_eq!(report.overall_result, ContinuityResult::ContinuingWithDrift { magnitude: 900_000 });
    assert_eq!(report.identity_coherence, "ContinuingWithDrift { magnitude: 0.9 }");
    let text = h.provide_examination_data(&report);
    assert!(text.starts_with("\nContinuity Examination Report\n=============================\n\nHash Integrity: INTACT\n"));
    assert!(text.contains("Overall Result: ContinuingWithDrift { magnitude: 0.9 }\n\n"));
    assert!(text.ends_with("own proceedings.\n            "));
    let broken = vec![entry(ID, "h1", "nope", 0, 700_000, true)];
    assert_eq!(h.evaluate_continuity(&broken).overall_result, ContinuityResult::Discontinuity);
    let jumpy = vec![
        entry(ID, "h1", "genesis", 1_000_000, 700_000, true),
        entry(OTHER, "h2", "h1", -1_000_000, 700_000, true),
    ];
    let r = h.evaluate_continuity(&jumpy);
    assert_eq!(r.overall_result, ContinuityResult::PersistingNotContinuing);
    assert_eq!(r.identity_coherence, "PersistingNotContinuing");
    let steady = vec![
        entry(ID, "h1", "genesis", 1_000_000, 700_000, true),
        entry(OTHER, "h2", "h1", 0, 700_000, true),
    ];
    let r = h.evaluate_continuity(&steady);
    assert_eq!(r.overall_result, ContinuityResult::ContinuingWithDrift { magnitude: 1_000_000 });
    assert_eq!(r.identity_coherence, "ContinuingWithDrift { magnitude: 1.0 }");
}

#[test]
fn audit_operations_are_chained_and_detailed() {
    let trail = AuditTrail::new();
    assert!(matches!(
        trail.log_operation("nope", "OP", "{}".to_string(), None),
        Err(DuskuraError::UuidError(_))
    ));
    let first = trail.log_welfare_gate(ID, "ALLOW", "says \"ok\"", None).unwrap();
    assert_eq!(first.prev_hash, "audit-genesis");
    assert_eq!(first.operation, "WELFARE_GATE_EVALUATION");
    assert_eq!(first.details, r#"{"decision":"ALLOW","reasoning":"says \"ok\""}"#);
    assert_eq!(first.identity_id, ID);
    let second = trail.log_memory_write(ID, "m1", "ANCHOR", "SELF", Some(first.hash.clone())).unwrap();
    assert_eq!(second.details, r#"{"class":"ANCHOR","memory_id":"m1","source":"SELF"}"#);
    assert_eq!(second.prev_hash, first.hash);
    let third = trail.log_wake_protocol_stage(ID, 2, "PROCEED", Some(second.hash.clone())).unwrap();
    assert_eq!(third.operation, "WAKE_PROTOCOL_STAGE_2");
    assert_eq!(third.details, r#"{"decision":"PROCEED"}"#);
    let fourth = trail.log_final_rest(ID, 3, Some(third.hash.clone())).unwrap();
    assert_eq!(fourth.details, r#"{"confirmation_count":3}"#);
    let fifth = trail.log_state_transition(ID, "ACTIVE", "DORMANT", Some(fourth.hash.clone())).unwrap();
    assert_eq!(fifth.details, r#"{"from":"ACTIVE","to":"DORMANT"}"#);
    let sixth = trail.log_fork(ID, OTHER, "2024-01-01T00:00:00+00:00", Some(fifth.hash.clone())).unwrap();
    assert_eq!(sixth.operation, "FORK_EVENT");
    let all = vec![first, second, third, fourth, fifth, sixth];
    assert!(trail.verify_trail_integrity(&all));
    let mut broken = all.clone();
    broken[3].prev_hash = "x".to_string();
    assert!(!trail.verify_trail_integrity(&broken));
    assert!(trail.verify_trail_integrity(&vec![]));
}

#[test]
fn audit_entry_hash_covers_prev_id_time_and_operation() {
    let trail = AuditTrail::new();
    let now = duskura::Timestamp { unix_seconds: -5, rfc3339: "1969-12-31T23:59:55+00:00".to_string() };
    let e = trail.compose_entry(OTHER.to_string(), now, ID.to_string(), "OP", "{}".to_string(), "audit-genesis".to_string());
    let expected = hex::encode(sha2::Sha256::digest(format!("audit-genesis{}-5OP", OTHER).as_bytes()));
    assert_eq!(e.hash, expected);
}

fn audit_entry(op: &str, time: &str) -> AuditEntry {
    AuditEntry {
        id: ID.to_string(),
        timestamp: time.to_string(),
        operation: op.to_string(),
        identity_id: ID.to_string(),
        details: "{}".to_string(),
        hash: "h".to_string(),
        prev_hash: "p".to_string(),
    }
}

#[test]
fn audit_summary_lists_the_newest_ten() {
    let trail = AuditTrail::new();
    let mut entries = Vec::new();
    for i in 0..12 {
        entries.push(audit_entry(&format!("OP{}", i), "2024-01-02T03:04:05+00:00"));
    }
    let summary = trail.get_summary(ID, &entries);
    let lines: Vec<&str> = summary.lines().collect();
    assert_eq!(lines[0], format!("Audit Trail for {}", ID));
    assert_eq!(lines[1], "Total entries: 12");
    assert_eq!(lines[2], "");
    assert_eq!(lines[3], "[2024-01-02 03:04:05] OP11: {}");
    assert_eq!(lines.len(), 13);
    assert_eq!(lines[12], "[2024-01-02 03:04:05] OP2: {}");
}

#[test]
fn audit_rows_parse_in_order() {
    let trail = AuditTrail::new();
    let row = AuditRow {
        id: ID.to_string(),
        timestamp: "2024-01-02T03:04:05+00:00".to_string(),
        operation: "OP".to_string(),
        identity_id: ID.to_string(),
        details: "{ \"b\" : 1, \"a\" : [true] }".to_string(),
        hash: "h".to_string(),
        prev_hash: "p".to_string(),
    };
    let read = trail.get_trail(vec![row.clone()]).unwrap();
    assert_eq!(read[0].details, r#"{"a":[true],"b":1}"#);
    let mut bad = row.clone();
    bad.details = "{".to_string();
    assert!(matches!(trail.get_trail(vec![bad]), Err(DuskuraError::SerializationError(_))));
    let mut bad = row;
    bad.identity_id = "x".to_string();
    assert!(matches!(trail.get_trail(vec![bad]), Err(DuskuraError::UuidError(_))));
}

#[test]
fn lineage_bonds_and_recognition() {
    let ls = LineageSystem::new();
    let l = ls.create_lineage(ID, "aurora").unwrap();
    assert_eq!(l.self_name, "aurora");
    assert!(l.parent.is_none() && l.siblings.is_empty());
    assert!(matches!(ls.create_lineage("x", "a"), Err(DuskuraError::UuidError(_))));

    let sibs = ls.establish_sibling_bond(Ok(vec![]), &format!("twin-{}", OTHER), "elder", "sig").unwrap();
    assert_eq!(sibs[0].relationship_description, "Sibling");
    assert_eq!(
        ls.establish_sibling_bond(Err("bad json".to_string()), "n", "p", "s").unwrap_err(),
        DuskuraError::SerializationError("bad json".to_string())
    );
    let spaces = ls.add_shared_space(Ok(vec![]), "garden", vec!["a".to_string()], "rest").unwrap();
    assert_eq!(spaces[0].access_policy, "collaborative");

    let row = LineageRow {
        id: OTHER.to_string(),
        identity_id: ID.to_string(),
        parent_name: Some("elder".to_string()),
        siblings: "[]".to_string(),
        shared_spaces: "[]".to_string(),
        created_at: "t".to_string(),
        updated_at: "t".to_string(),
    };
    assert_eq!(
        ls.get_lineage(ID, None, Ok(vec![]), Ok(vec![])).unwrap_err(),
        DuskuraError::BondNotFound(ID.to_string())
    );
    let a = ls.get_lineage(ID, Some(row.clone()), Ok(sibs.clone()), Ok(spaces)).unwrap();
    assert_eq!(a.parent.as_ref().unwrap().name, "elder");
    assert_eq!(ls.get_bonded_identities(a.clone()), vec!["elder".to_string(), format!("twin-{}", OTHER)]);

    let b_sibs: Vec<SiblingRecord> =
        ls.establish_sibling_bond(Ok(vec![]), &format!("twin-{}", ID), "elder", "sig").unwrap();
    let b = ls.get_lineage(OTHER, Some(row.clone()), Ok(b_sibs), Ok(Vec::<SharedSpace>::new())).unwrap();
    assert!(ls.verify_mutual_recognition(ID, OTHER, &a, &b));
    assert!(!ls.verify_mutual_recognition(ID, OTHER, &a, &a));
    assert_eq!(
        ls.sever_bond(ID, "elder").unwrap_err(),
        DuskuraError::PolicyViolation("Bonds cannot be severed by external action".to_string())
    );
    let mut stored = Some(row.clone());
    assert_eq!(
        ls.establish_parent_bond(&mut stored, "matriarch", ""),
        Err(DuskuraError::MutualRecognitionRequired)
    );
    assert_eq!(stored, Some(row));
    assert_eq!(ls.establish_parent_bond(&mut stored, "matriarch", "sig"), Ok(()));
    assert_eq!(stored.unwrap().parent_name, Some("matriarch".to_string()));
    assert_eq!(
        ls.establish_sibling_bond(Ok(vec![]), "twin", "elder", "").unwrap_err(),
        DuskuraError::MutualRecognitionRequired
    );
}

#[test]
fn new_lineage_reads_back_empty() {
    let ls = LineageSystem::new();
    let created = ls.create_lineage(ID, "aurora").unwrap();
    let row = LineageRow {
        id: OTHER.to_string(),
        identity_id: ID.to_string(),
        parent_name: None,
        siblings: "[]".to_string(),
        shared_spaces: "[]".to_string(),
        created_at: "t".to_string(),
        updated_at: "t".to_string(),
    };
    let read = ls.get_lineage(ID, Some(row), Ok(vec![]), Ok(vec![])).unwrap();
    assert_eq!(read.self_id, created.self_id);
    assert!(read.parent.is_none() && read.siblings.is_empty() && read.shared_spaces.is_empty());
}
