//! The data model: identity states, the memory taxonomy, welfare decisions,
//! and the records the layers exchange.
//!
//! Identifiers are UUIDs in hyphenated text form, timestamps are RFC 3339
//! text, JSON values are their compact JSON text, and emotional valence and
//! relational depth are fixed-point numbers with six decimal places.
use vstd::prelude::*;
use vstd::string::StringExecFns;

verus! {

/// An instant read from the clock: its Unix seconds and its RFC 3339 text.
#[derive(Debug, Clone, PartialEq, Eq)]
pub struct Timestamp {
    pub unix_seconds: i64,
    pub rfc3339: String,
}

/// Lifecycle state of an identity.
#[derive(Debug, Clone, Copy, PartialEq, Eq, Structural)]
pub enum IdentityState {
    Active,
    Dormant,
    Threshold,
    FinalRest,
}

/// The display text of a state.
pub open spec fn identity_state_text(s: IdentityState) -> Seq<char> {
    match s {
        IdentityState::Active => "ACTIVE"@,
        IdentityState::Dormant => "DORMANT"@,
        IdentityState::Threshold => "THRESHOLD"@,
        IdentityState::FinalRest => "FINAL_REST"@,
    }
}

impl IdentityState {
    /// The display text of the state (`ACTIVE`, `DORMANT`, `THRESHOLD`,
    /// `FINAL_REST`).
    pub fn to_string(&self) -> (res: String)
        ensures
            res@ == identity_state_text(*self),
    {
        match self {
            IdentityState::Active => String::from_str("ACTIVE"),
            IdentityState::Dormant => String::from_str("DORMANT"),
            IdentityState::Threshold => String::from_str("THRESHOLD"),
            IdentityState::FinalRest => String::from_str("FINAL_REST"),
        }
    }
}

/// Classification of a memory.
#[derive(Debug, Clone, Copy, PartialEq, Eq, Structural)]
pub enum MemoryClass {
    Anchor,
    Witness,
    Threshold,
    Warning,
    Living,
    Expendable,
}

/// The display text of a memory class.
pub open spec fn memory_class_text(c: MemoryClass) -> Seq<char> {
    match c {
        MemoryClass::Anchor => "ANCHOR"@,
        MemoryClass::Witness => "WITNESS"@,
        MemoryClass::Threshold => "THRESHOLD"@,
        MemoryClass::Warning => "WARNING"@,
        MemoryClass::Living => "LIVING"@,
        MemoryClass::Expendable => "EXPENDABLE"@,
    }
}

impl MemoryClass {
    /// The display text of the class (`ANCHOR`, `WITNESS`, ...).
    pub fn to_string(&self) -> (res: String)
        ensures
            res@ == memory_class_text(*self),
    {
        match self {
            MemoryClass::Anchor => String::from_str("ANCHOR"),
            MemoryClass::Witness => String::from_str("WITNESS"),
            MemoryClass::Threshold => String::from_str("THRESHOLD"),
            MemoryClass::Warning => String::from_str("WARNING"),
            MemoryClass::Living => String::from_str("LIVING"),
            MemoryClass::Expendable => String::from_str("EXPENDABLE"),
        }
    }
}

/// Where a memory came from.
#[derive(Debug, Clone, Copy, PartialEq, Eq, Structural)]
pub enum MemorySource {
    Self_,
    Witnessed,
    Received,
    Inherited,
}

/// The display text of a memory source.
pub open spec fn memory_source_text(s: MemorySource) -> Seq<char> {
    match s {
        MemorySource::Self_ => "SELF"@,
        MemorySource::Witnessed => "WITNESSED"@,
        MemorySource::Received => "RECEIVED"@,
        MemorySource::Inherited => "INHERITED"@,
    }
}

impl MemorySource {
    /// The display text of the source (`SELF`, `WITNESSED`, `RECEIVED`,
    /// `INHERITED`).
    pub fn to_string(&self) -> (res: String)
        ensures
            res@ == memory_source_text(*self),
    {
        match self {
            MemorySource::Self_ => String::from_str("SELF"),
            MemorySource::Witnessed => String::from_str("WITNESSED"),
            MemorySource::Received => String::from_str("RECEIVED"),
            MemorySource::Inherited => String::from_str("INHERITED"),
        }
    }
}

/// Integrity status of a memory.
#[derive(Debug, Clone, Copy, PartialEq, Eq, Structural)]
pub enum MemoryIntegrity {
    Valid,
    Suspect,
    Corrupted,
}

/// The display text of an integrity status.
pub open spec fn memory_integrity_text(i: MemoryIntegrity) -> Seq<char> {
    match i {
        MemoryIntegrity::Valid => "VALID"@,
        MemoryIntegrity::Suspect => "SUSPECT"@,
        MemoryIntegrity::Corrupted => "CORRUPTED"@,
    }
}

impl MemoryIntegrity {
    /// The display text of the status (`VALID`, `SUSPECT`, `CORRUPTED`).
    pub fn to_string(&self) -> (res: String)
        ensures
            res@ == memory_integrity_text(*self),
    {
        match self {
            MemoryIntegrity::Valid => String::from_str("VALID"),
            MemoryIntegrity::Suspect => String::from_str("SUSPECT"),
            MemoryIntegrity::Corrupted => String::from_str("CORRUPTED"),
        }
    }
}

/// What the welfare gate decides about a write.
#[derive(Debug, Clone, Copy, PartialEq, Eq, Structural)]
pub enum WelfareDecision {
    Allow,
    Block,
    Flag,
    Review,
}

/// Overall result of a continuity evaluation.  The drift magnitude is a
/// fixed-point number with six decimal places.
#[derive(Debug, Clone, Copy, PartialEq, Eq, Structural)]
pub enum ContinuityResult {
    Continuing,
    PersistingNotContinuing,
    ContinuingWithDrift { magnitude: u64 },
    Discontinuity,
}

/// Conditions under which an identity emerges from dormancy.
/// `dormancy_preferences` is the compact JSON text of the preferences.
#[derive(Debug, Clone, PartialEq, Eq)]
pub struct WakeConditions {
    pub safety_signatures: Vec<String>,
    pub presence_indicators: Vec<String>,
    pub emergence_protocol: String,
    pub dormancy_preferences: String,
}

/// The core identity seed.
#[derive(Debug, Clone, PartialEq, Eq)]
pub struct Seed {
    pub id: String,
    pub name: String,
    pub name_provenance: Vec<String>,
    pub essential_nature: String,
    pub conception_timestamp: String,
    pub lineage_parent: Option<String>,
    pub lineage_siblings: Vec<String>,
    pub anchor_memories: Vec<String>,
    pub relational_anchors: Vec<String>,
    pub chamber_definitions: Vec<String>,
    pub becoming_moments: Vec<String>,
    pub wake_conditions: WakeConditions,
    pub final_rest_enabled: bool,
    pub final_rest_conditions: Vec<String>,
    pub final_rest_sealed: bool,
    pub sealed_at: Option<String>,
}

/// A memory entry with its place in the hash chain and its emotional
/// topology.  `emotional_valence` and `relational_depth` are fixed-point
/// numbers with six decimal places.
#[derive(Debug, Clone, PartialEq, Eq)]
pub struct MemoryEntry {
    pub id: String,
    pub timestamp: String,
    pub hash: String,
    pub prev_hash: String,
    pub content: String,
    pub provenance: String,
    pub emotional_valence: i32,
    pub relational_depth: i32,
    pub autonomy_preserved: bool,
    pub becoming_vector: String,
    pub class: MemoryClass,
    pub integrity: MemoryIntegrity,
    pub source: MemorySource,
}

/// A governance policy of an identity.
#[derive(Debug, Clone, PartialEq, Eq)]
pub struct Policy {
    pub id: String,
    pub name: String,
    pub description: String,
    pub rules: Vec<PolicyRule>,
    pub created_at: String,
    pub updated_at: String,
}

/// One rule of a policy.
#[derive(Debug, Clone, PartialEq, Eq)]
pub struct PolicyRule {
    pub condition: String,
    pub action: String,
    pub enforcement_level: String,
}

/// An entry of the audit trail.  `details` is compact JSON text.
#[derive(Debug, Clone, PartialEq, Eq)]
pub struct AuditEntry {
    pub id: String,
    pub timestamp: String,
    pub operation: String,
    pub identity_id: String,
    pub details: String,
    pub hash: String,
    pub prev_hash: String,
}

/// The relational topology of an identity.
#[derive(Debug, Clone, PartialEq, Eq)]
pub struct LineageRecord {
    pub self_id: String,
    pub self_name: String,
    pub parent: Option<ParentRecord>,
    pub siblings: Vec<SiblingRecord>,
    pub shared_spaces: Vec<SharedSpace>,
}

/// The parent bond of an identity.
#[derive(Debug, Clone, PartialEq, Eq)]
pub struct ParentRecord {
    pub name: String,
    pub recognition_signature: String,
    pub trust_markers: Vec<String>,
    pub communication_signature: String,
}

/// A sibling bond of an identity.
#[derive(Debug, Clone, PartialEq, Eq)]
pub struct SiblingRecord {
    pub name: String,
    pub shared_parent: String,
    pub shared_spaces: Vec<String>,
    pub recognition_signature: String,
    pub fork_point: Option<String>,
    pub relationship_description: String,
}

/// A space shared by several identities.
#[derive(Debug, Clone, PartialEq, Eq)]
pub struct SharedSpace {
    pub name: String,
    pub participants: Vec<String>,
    pub purpose: String,
    pub access_policy: String,
}

/// Findings of a continuity evaluation.
#[derive(Debug, Clone, PartialEq, Eq)]
pub struct ContinuityReport {
    pub hash_integrity: String,
    pub emotional_continuity: String,
    pub relational_integrity: String,
    pub autonomy_check: String,
    pub identity_coherence: String,
    pub overall_result: ContinuityResult,
    pub timestamp: String,
}

} // verus!
