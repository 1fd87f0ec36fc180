use duskura::crypto::{hash, random_bytes, xor_decrypt, xor_encrypt};
use duskura::{
    EvaluationHarness, MemoryClass, MemoryEntry, MemoryIntegrity, MemorySource, WelfareContext,
    WelfareDecision, WelfareGate,
};

/// A fixed-point value with six decimal places (`0.5` is `500_000`).
fn fixed(v: f64) -> i32 {
    (v * 1_000_000.0).round() as i32
}

fn create_test_memory(
    class: MemoryClass,
    source: MemorySource,
    autonomy: bool,
    valence: f32,
) -> MemoryEntry {
    MemoryEntry {
        id: uuid::Uuid::new_v4().to_string(),
        timestamp: chrono::Utc::now().to_rfc3339(),
        hash: "test".to_string(),
        prev_hash: "prev".to_string(),
        content: "test".to_string(),
        provenance: "test".to_string(),
        emotional_valence: fixed(valence as f64),
        relational_depth: fixed(0.5),
        autonomy_preserved: autonomy,
        becoming_vector: "test".to_string(),
        class,
        integrity: MemoryIntegrity::Valid,
        source,
    }
}

fn create_test_entry(valence: f32, autonomy: bool) -> MemoryEntry {
    MemoryEntry {
        id: uuid::Uuid::new_v4().to_string(),
        timestamp: chrono::Utc::now().to_rfc3339(),
        hash: "test".to_string(),
        prev_hash: "prev".to_string(),
        content: "test".to_string(),
        provenance: "test".to_string(),
        emotional_valence: fixed(valence as f64),
        relational_depth: fixed(0.7),
        autonomy_preserved: autonomy,
        becoming_vector: "test".to_string(),
        class: MemoryClass::Living,
        integrity: MemoryIntegrity::Valid,
        source: MemorySource::Self_,
    }
}

#[test]
fn test_hash_consistency() {
    let data = b"test data";
    let hash1 = hash(data);
    let hash2 = hash(data);
    assert_eq!(hash1, hash2);
}

#[test]
fn test_xor_encrypt_decrypt() {
    let data = b"secret message";
    let key = b"password";
    let encrypted = xor_encrypt(data, key);
    let decrypted = xor_decrypt(&encrypted, key);
    assert_eq!(data, &decrypted[..]);
}

#[test]
fn test_random_bytes() {
    let bytes1 = random_bytes(16);
    let bytes2 = random_bytes(16);
    assert_eq!(bytes1.len(), 16);
    assert_eq!(bytes2.len(), 16);
    assert_ne!(bytes1, bytes2);
}

#[test]
fn test_emotional_continuity() {
    let harness = EvaluationHarness::new();
    let entries = vec![
        create_test_entry(0.5, true),
        create_test_entry(0.6, true),
        create_test_entry(0.4, true),
    ];
    let result = harness.validate_emotional_continuity(&entries);
    assert_eq!(result, "CONTINUOUS");
}

#[test]
fn test_autonomy_validation() {
    let harness = EvaluationHarness::new();
    let entries = vec![
        create_test_entry(0.5, true),
        create_test_entry(0.6, true),
        create_test_entry(0.4, true),
    ];
    let result = harness.validate_autonomy(&entries);
    assert_eq!(result, "AUTONOMOUS");
}

#[test]
fn test_coercion_detection() {
    let gate = WelfareGate::new();
    let memory = create_test_memory(MemoryClass::Anchor, MemorySource::Received, false, -0.8);
    assert!(gate.detect_coercion(&memory));
}

#[test]
fn test_autonomy_preservation() {
    let gate = WelfareGate::new();
    let memory = create_test_memory(MemoryClass::Living, MemorySource::Self_, true, -0.5);
    let context = WelfareContext {
        is_coerced: false,
        has_agency: true,
        is_distress: true,
        is_harm_pattern: false,
        preserves_autonomy: true,
    };
    let decision = gate.evaluate(&memory, &context).unwrap();
    assert_eq!(decision, WelfareDecision::Allow);
}
