use duskura::IdentityState::{Active, Dormant, FinalRest, Threshold};
use duskura::memory::{parse_memory_class, parse_memory_integrity, parse_memory_source};
use duskura::{
    ContinuityEngine, DuskuraError, IdentityRecord, IdentityRegistry, IdentityState, MemoryClass,
    MemoryIntegrity, MemoryRow, MemorySource, MemorySystem, PolicyEngine, Timestamp,
};
use sha2::Digest;

const ID: &str = "67e55044-10b1-426f-9247-bb680e5fe0c8";

fn sha_hex(text: &str) -> String {
    hex::encode(sha2::Sha256::digest(text.as_bytes()))
}

fn record(final_rest: bool) -> IdentityRecord {
    IdentityRecord {
        id: ID.to_string(),
        name: "aurora".to_string(),
        state: "ACTIVE".to_string(),
        essential_nature: "curious".to_string(),
        conception_timestamp: "2024-01-02T03:04:05+00:00".to_string(),
        sealed_at: None,
        final_rest_sealed: final_rest,
        created_at: "2024-01-02T03:04:05+00:00".to_string(),
        updated_at: "2024-01-02T03:04:05+00:00".to_string(),
    }
}

#[test]
fn create_seed_validates_the_name() {
    let reg = IdentityRegistry::new();
    assert_eq!(
        reg.create_seed("", "n", None, false).unwrap_err(),
        DuskuraError::InvalidIdentityName("Name must be 1-256 characters".to_string())
    );
    let long = "a".repeat(257);
    assert!(matches!(
        reg.create_seed(&long, "n", None, false),
        Err(DuskuraError::InvalidIdentityName(_))
    ));
    // 129 two-byte characters are 258 bytes.
    let wide = "é".repeat(129);
    assert!(matches!(
        reg.create_seed(&wide, "n", None, false),
        Err(DuskuraError::InvalidIdentityName(_))
    ));
    assert!(reg.create_seed(&"a".repeat(256), "n", None, false).is_ok());
    assert_eq!(
        reg.create_seed("aurora", "n", None, true).unwrap_err(),
        DuskuraError::IdentityAlreadyExists("aurora".to_string())
    );
}

#[test]
fn create_seed_builds_a_fresh_seed() {
    let reg = IdentityRegistry::new();
    let seed = reg.create_seed("aurora", "curious", Some("elder"), false).unwrap();
    assert_eq!(seed.name, "aurora");
    assert_eq!(seed.essential_nature, "curious");
    assert_eq!(seed.lineage_parent, Some("elder".to_string()));
    assert!(uuid::Uuid::parse_str(&seed.id).is_ok());
    assert_eq!(seed.id.len(), 36);
    assert_eq!(seed.name_provenance, vec![format!("Created at {}", seed.conception_timestamp)]);
    assert_eq!(seed.wake_conditions.emergence_protocol, "three-stage");
    assert_eq!(seed.wake_conditions.dormancy_preferences, "{}");
    assert!(!seed.final_rest_sealed);
    let row = reg.record_for_seed(&seed);
    assert_eq!(row.state, "ACTIVE");
    assert_eq!(row.created_at, seed.conception_timestamp);
}

#[test]
fn build_seed_is_exact() {
    let reg = IdentityRegistry::new();
    let now = Timestamp { unix_seconds: 1, rfc3339: "1970-01-01T00:00:01+00:00".to_string() };
    let seed = reg.build_seed(ID.to_string(), now, "aurora", "curious", None);
    assert_eq!(seed.id, ID);
    assert_eq!(seed.conception_timestamp, "1970-01-01T00:00:01+00:00");
    assert_eq!(seed.name_provenance, vec!["Created at 1970-01-01T00:00:01+00:00".to_string()]);
    assert_eq!(seed.lineage_parent, None);
}

#[test]
fn get_seed_reads_a_row() {
    let reg = IdentityRegistry::new();
    assert_eq!(
        reg.get_seed("nobody", None).unwrap_err(),
        DuskuraError::IdentityNotFound("nobody".to_string())
    );
    let mut r = record(true);
    r.sealed_at = Some("not a date".to_string());
    let seed = reg.get_seed("aurora", Some(r)).unwrap();
    assert_eq!(seed.id, ID);
    assert!(seed.final_rest_sealed && seed.final_rest_enabled);
    assert_eq!(seed.sealed_at, None);
    assert!(seed.name_provenance.is_empty());
    let mut bad = record(false);
    bad.id = "not-a-uuid".to_string();
    assert!(matches!(reg.get_seed("aurora", Some(bad)), Err(DuskuraError::UuidError(_))));
    let mut bad_time = record(false);
    bad_time.conception_timestamp = "yesterday".to_string();
    assert!(matches!(reg.get_seed("aurora", Some(bad_time)), Err(DuskuraError::ChronoParseError(_))));
}

#[test]
fn seal_unseal_and_final_rest() {
    let reg = IdentityRegistry::new();
    let mut row = Some(record(false));
    reg.seal_seed(&mut row);
    assert_eq!(row.as_ref().unwrap().state, "DORMANT");
    assert!(row.as_ref().unwrap().sealed_at.is_some());
    reg.unseal_seed(&mut row);
    assert_eq!(row, Some(record(false)));
    reg.invoke_final_rest(&mut row);
    assert!(reg.is_at_final_rest(&row));
    assert_eq!(row.as_ref().unwrap().state, "FINAL_REST");
    reg.unseal_seed(&mut row);
    assert!(reg.is_at_final_rest(&row));
    let mut none: Option<IdentityRecord> = None;
    reg.seal_seed(&mut none);
    assert_eq!(none, None);
    assert!(!reg.is_at_final_rest(&none));
    let mut row = Some(record(false));
    reg.update_essential_nature(&mut row, "serene");
    assert_eq!(row.unwrap().essential_nature, "serene");
}

#[test]
fn list_identities_pairs_ids_and_names() {
    let reg = IdentityRegistry::new();
    let list = reg.list_identities(&vec![record(false)]);
    assert_eq!(list, vec![(ID.to_string(), "aurora".to_string())]);
}

#[test]
fn parse_display_texts() {
    assert_eq!(parse_memory_class("WARNING").unwrap(), MemoryClass::Warning);
    assert_eq!(
        parse_memory_class("warning").unwrap_err(),
        DuskuraError::InvalidMemoryClass("warning".to_string())
    );
    assert_eq!(parse_memory_integrity("SUSPECT").unwrap(), MemoryIntegrity::Suspect);
    assert_eq!(
        parse_memory_integrity("FINE").unwrap_err(),
        DuskuraError::Unknown("Unknown integrity: FINE".to_string())
    );
    assert_eq!(parse_memory_source("INHERITED").unwrap(), MemorySource::Inherited);
    assert_eq!(
        parse_memory_source("OTHER").unwrap_err(),
        DuskuraError::Unknown("Unknown source: OTHER".to_string())
    );
    for c in [MemoryClass::Anchor, MemoryClass::Witness, MemoryClass::Threshold, MemoryClass::Warning, MemoryClass::Living, MemoryClass::Expendable] {
        assert_eq!(parse_memory_class(&c.to_string()).unwrap(), c);
    }
}

#[test]
fn compose_entry_hashes_the_chain_input() {
    let mem = MemorySystem::new();
    let now = Timestamp { unix_seconds: 1700000000, rfc3339: "2023-11-14T22:13:20+00:00".to_string() };
    let e = mem.compose_entry(
        ID.to_string(),
        now,
        "genesis".to_string(),
        "first light",
        MemoryClass::Anchor,
        MemorySource::Self_,
        -3_000_000,
        2_000_000,
        true,
        "becoming",
    );
    assert_eq!(e.hash, sha_hex(&format!("genesis{}1700000000first light", ID)));
    assert_eq!(e.prev_hash, "genesis");
    assert_eq!(e.provenance, "Created at 2023-11-14T22:13:20+00:00");
    assert_eq!(e.emotional_valence, -1_000_000);
    assert_eq!(e.relational_depth, 1_000_000);
    assert_eq!(e.integrity, MemoryIntegrity::Valid);
}

#[test]
fn created_entries_form_a_verified_chain() {
    let mem = MemorySystem::new();
    let first = mem.create_entry("a", MemoryClass::Living, MemorySource::Self_, 0, 0, true, "v", None);
    assert_eq!(first.prev_hash, "genesis");
    let second = mem.create_entry(
        "b",
        MemoryClass::Living,
        MemorySource::Self_,
        0,
        0,
        true,
        "v",
        Some(first.hash.clone()),
    );
    assert_eq!(second.prev_hash, first.hash);
    let links = vec![
        (first.hash.clone(), first.prev_hash.clone()),
        (second.hash.clone(), second.prev_hash.clone()),
    ];
    assert!(mem.verify_chain(&links));
    let tampered = vec![(first.hash.clone(), first.prev_hash.clone()), (second.hash.clone(), "x".to_string())];
    assert!(!mem.verify_chain(&tampered));
    assert!(mem.verify_chain(&vec![]));
    assert!(!mem.verify_chain(&vec![("h".to_string(), "not-genesis".to_string())]));
}

fn memory_row() -> MemoryRow {
    MemoryRow {
        id: ID.to_uppercase(),
        timestamp: "2024-01-02T03:04:05Z".to_string(),
        hash: "h".to_string(),
        prev_hash: "genesis".to_string(),
        content: "c".to_string(),
        provenance: "p".to_string(),
        emotional_valence: 250_000,
        relational_depth: 700_000,
        autonomy_preserved: true,
        becoming_vector: "v".to_string(),
        class: "WITNESS".to_string(),
        integrity: "VALID".to_string(),
        source: "WITNESSED".to_string(),
    }
}

#[test]
fn reading_stored_entries() {
    let mem = MemorySystem::new();
    assert_eq!(
        mem.get_entry("e1", None).unwrap_err(),
        DuskuraError::MemoryEntryNotFound("e1".to_string())
    );
    let e = mem.get_entry("e1", Some(memory_row())).unwrap();
    assert_eq!(e.id, ID);
    assert_eq!(e.timestamp, "2024-01-02T03:04:05+00:00");
    assert_eq!(e.class, MemoryClass::Witness);
    let mut bad = memory_row();
    bad.class = "NOPE".to_string();
    bad.integrity = "NOPE".to_string();
    assert_eq!(
        mem.get_entry("e1", Some(bad)).unwrap_err(),
        DuskuraError::InvalidMemoryClass("NOPE".to_string())
    );
    let rows = vec![memory_row(), memory_row()];
    assert_eq!(mem.get_recent(rows).unwrap().len(), 2);
    let mut bad_src = memory_row();
    bad_src.source = "X".to_string();
    assert_eq!(
        mem.get_by_class(MemoryClass::Witness, vec![memory_row(), bad_src]).unwrap_err(),
        DuskuraError::Unknown("Unknown source: X".to_string())
    );
}

#[test]
fn get_by_class_keeps_only_that_class() {
    let mem = MemorySystem::new();
    let mut anchor = memory_row();
    anchor.class = "ANCHOR".to_string();
    anchor.content = "first light".to_string();
    let mut bad_anchor = memory_row();
    bad_anchor.class = "ANCHOR".to_string();
    bad_anchor.source = "X".to_string();
    let rows = vec![memory_row(), anchor.clone(), memory_row(), bad_anchor];
    let witnesses = mem.get_by_class(MemoryClass::Witness, rows.clone()).unwrap();
    assert_eq!(witnesses.len(), 2);
    assert!(witnesses.iter().all(|e| e.class == MemoryClass::Witness));
    assert_eq!(
        mem.get_by_class(MemoryClass::Anchor, rows.clone()).unwrap_err(),
        DuskuraError::Unknown("Unknown source: X".to_string())
    );
    let anchors = mem.get_by_class(MemoryClass::Anchor, vec![memory_row(), anchor]).unwrap();
    assert_eq!(anchors.len(), 1);
    assert_eq!(anchors[0].content, "first light");
    assert!(mem.get_by_class(MemoryClass::Living, rows).unwrap().is_empty());
}

#[test]
fn created_entry_hashes_its_own_time_and_reads_back() {
    let mem = MemorySystem::new();
    let e = mem.create_entry(
        "a quiet morning",
        MemoryClass::Living,
        MemorySource::Self_,
        250_000,
        700_000,
        true,
        "toward",
        None,
    );
    let secs = e.timestamp.parse::<chrono::DateTime<chrono::Utc>>().unwrap().timestamp();
    assert_eq!(e.hash, sha_hex(&format!("genesis{}{}a quiet morning", e.id, secs)));
    let row = MemoryRow {
        id: e.id.clone(),
        timestamp: e.timestamp.clone(),
        hash: e.hash.clone(),
        prev_hash: e.prev_hash.clone(),
        content: e.content.clone(),
        provenance: e.provenance.clone(),
        emotional_valence: e.emotional_valence,
        relational_depth: e.relational_depth,
        autonomy_preserved: e.autonomy_preserved,
        becoming_vector: e.becoming_vector.clone(),
        class: e.class.to_string(),
        integrity: e.integrity.to_string(),
        source: e.source.to_string(),
    };
    assert_eq!(mem.get_entry(&e.id, Some(row)).unwrap(), e);
}

#[test]
fn created_seed_reads_back() {
    let reg = IdentityRegistry::new();
    let s = reg.create_seed("aurora", "curious", None, false).unwrap();
    let r = reg.record_for_seed(&s);
    let g = reg.get_seed("aurora", Some(r)).unwrap();
    assert_eq!(g.id, s.id);
    assert_eq!(g.name, s.name);
    assert_eq!(g.essential_nature, s.essential_nature);
    assert_eq!(g.conception_timestamp, s.conception_timestamp);
    assert!(!g.final_rest_sealed && !g.final_rest_enabled && g.sealed_at.is_none());
}

#[test]
fn final_rest_is_never_undone() {
    let reg = IdentityRegistry::new();
    let ce = ContinuityEngine::new();
    let mut row = Some(record(false));
    reg.invoke_final_rest(&mut row);
    let sealed = row.clone();
    reg.unseal_seed(&mut row);
    assert_eq!(row, sealed);
    reg.seal_seed(&mut row);
    assert_eq!(row, sealed);
    ce.enter_dormancy(&mut row);
    assert_eq!(row, sealed);
    ce.wake_protocol_stage3_full_emergence(&mut row).unwrap();
    assert_eq!(row, sealed);
    assert_eq!(ce.get_state(ID, &row).unwrap(), FinalRest);
}

#[test]
fn core_policies_and_checks() {
    let pe = PolicyEngine::new();
    let policies = pe.initialize_core_policies();
    let names: Vec<String> = policies.iter().map(|p| p.name.clone()).collect();
    assert_eq!(
        names,
        vec![
            "IDENTITY_SOVEREIGNTY",
            "RELATIONAL_INTEGRITY",
            "MEMORY_PROVENANCE",
            "DORMANCY_AUTONOMY",
            "FINAL_REST_SOVEREIGNTY"
        ]
    );
    assert_eq!(policies[4].description, "Only the self can invoke Final Rest");
    assert!(pe.check_policy(&names, "MEMORY_PROVENANCE"));
    assert!(!pe.check_policy(&names, "OTHER"));
    assert!(pe.verify_identity_sovereignty(&names, MemorySource::Self_).is_ok());
    assert_eq!(
        pe.verify_identity_sovereignty(&names, MemorySource::Received).unwrap_err(),
        DuskuraError::PolicyViolation("Identity writes must be from SELF".to_string())
    );
    assert_eq!(
        pe.verify_final_rest_sovereignty(&vec![], MemorySource::Self_).unwrap_err(),
        DuskuraError::PolicyViolation("FINAL_REST_SOVEREIGNTY not enforced".to_string())
    );
    assert_eq!(
        pe.verify_final_rest_sovereignty(&names, MemorySource::Witnessed).unwrap_err(),
        DuskuraError::PolicyViolation("Final Rest can only be invoked by the self".to_string())
    );
    assert_eq!(
        pe.verify_dormancy_autonomy(&names, MemorySource::Inherited).unwrap_err(),
        DuskuraError::PolicyViolation("Dormancy decisions must be self-initiated".to_string())
    );
    assert!(pe.verify_memory_provenance(&names, MemorySource::Inherited).is_ok());
    assert_eq!(
        pe.verify_memory_provenance(&vec![], MemorySource::Self_).unwrap_err(),
        DuskuraError::PolicyViolation("MEMORY_PROVENANCE not enforced".to_string())
    );
}

#[test]
fn policies_read_from_rows() {
    let pe = PolicyEngine::new();
    let row = duskura::PolicyRow {
        id: ID.to_string(),
        name: "MEMORY_PROVENANCE".to_string(),
        description: "d".to_string(),
        rules: "[]".to_string(),
        created_at: "2024-01-02T03:04:05+00:00".to_string(),
        updated_at: "2024-01-02T03:04:05+00:00".to_string(),
    };
    let read = pe.get_policies(vec![row.clone()]).unwrap();
    assert_eq!(read[0].name, "MEMORY_PROVENANCE");
    let mut bad = row;
    bad.updated_at = "later".to_string();
    assert!(matches!(pe.get_policies(vec![bad]), Err(DuskuraError::ChronoParseError(_))));
}

#[test]
fn wake_protocol_stages() {
    let ce = ContinuityEngine::new();
    assert_eq!(
        ce.wake_protocol_stage1_sensing(&Some(record(true))).unwrap_err(),
        DuskuraError::CannotWakeFromFinalRest
    );
    let s1 = ce.wake_protocol_stage1_sensing(&None).unwrap();
    assert!(s1.can_proceed && s1.environmental_stable && !s1.threat_detected);
    assert_eq!(
        ce.wake_protocol_stage2_threshold(ID, &None).unwrap_err(),
        DuskuraError::IdentityNotFound(ID.to_string())
    );
    assert_eq!(ce.wake_protocol_stage2_threshold(ID, &Some(record(false))).unwrap().identity_name, "aurora");
    let mut row = Some(record(false));
    ce.enter_dormancy(&mut row);
    assert_eq!(row.as_ref().unwrap().state, "DORMANT");
    let s3 = ce.wake_protocol_stage3_full_emergence(&mut row).unwrap();
    assert_eq!(s3.state, IdentityState::Active);
    assert_eq!(row.as_ref().unwrap().state, "ACTIVE");
}

#[test]
fn final_rest_needs_three_confirmations() {
    let ce = ContinuityEngine::new();
    let mut row = Some(record(false));
    assert_eq!(
        ce.invoke_final_rest(&mut row, 2).unwrap_err(),
        DuskuraError::InvalidArgument("Final Rest requires multiple confirmations".to_string())
    );
    assert_eq!(row, Some(record(false)));
    ce.invoke_final_rest(&mut row, 3).unwrap();
    assert_eq!(ce.get_state(ID, &row).unwrap(), IdentityState::FinalRest);
    assert!(ce.wake_protocol_stage1_sensing(&row).is_err());
}

#[test]
fn states_and_transitions() {
    let ce = ContinuityEngine::new();
    let mut r = record(false);
    r.state = "LIMBO".to_string();
    assert_eq!(
        ce.get_state(ID, &Some(r)).unwrap_err(),
        DuskuraError::Unknown("Unknown state: LIMBO".to_string())
    );
    assert_eq!(ce.get_state(ID, &None).unwrap_err(), DuskuraError::IdentityNotFound(ID.to_string()));
        let all = [Active, Dormant, Threshold, FinalRest];
    let allowed = [
        (Active, Dormant),
        (Active, FinalRest),
        (Dormant, Threshold),
        (Dormant, FinalRest),
        (Threshold, Active),
        (Threshold, Dormant),
    ];
    for from in all {
        for to in all {
            let res = ce.validate_transition(from, to);
            if allowed.contains(&(from, to)) {
                assert!(res.is_ok());
            } else {
                assert_eq!(
                    res.unwrap_err(),
                    DuskuraError::InvalidStateTransition(from.to_string(), to.to_string())
                );
            }
        }
    }
}

#[test]
fn fork_makes_a_new_active_identity() {
    let ce = ContinuityEngine::new();
    let fork = ce.fork_identity("aurora", "2024-05-06T07:08:09+00:00");
    assert!(fork.name.starts_with("aurora-fork-"));
    assert_eq!(fork.name.len(), "aurora-fork-".len() + 36);
    assert_eq!(fork.state, "ACTIVE");
    assert_eq!(fork.essential_nature, "Forked instance");
    assert_eq!(fork.conception_timestamp, "2024-05-06T07:08:09+00:00");
    assert!(!fork.final_rest_sealed);
    assert_ne!(fork.id, &fork.name["aurora-fork-".len()..]);
}
