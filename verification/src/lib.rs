//! Duškura: a governed continuity substrate for persistent identities.
//!
//! The library holds the decisions of eight layers: the identity registry,
//! the hash-chained memory system, the policy engine, the welfare gate, the
//! continuity engine, the evaluation harness, the audit trail and the
//! lineage system.  Each is stated by a contract and proved.  Persistence
//! lives with the caller: it reads the rows a decision needs, hands them in
//! as plain values, and stores what comes back.
//!
//! Identifiers are UUIDs in hyphenated text, timestamps RFC 3339 text, and
//! emotional valence and relational depth fixed-point numbers with six
//! decimal places (`1_000_000` stands for `1.0`).

pub mod error;
pub mod models;
pub mod text;
pub mod outside;
pub mod crypto;
pub mod chain;
pub mod registry;
pub mod memory;
pub mod policy;
pub mod welfare;
pub mod continuity;
pub mod evaluation;
pub mod audit;
pub mod lineage;

pub use error::DuskuraError;
pub use models::{
    AuditEntry, ContinuityReport, ContinuityResult, IdentityState, LineageRecord, MemoryClass,
    MemoryEntry, MemoryIntegrity, MemorySource, ParentRecord, Policy, PolicyRule, Seed,
    SharedSpace, SiblingRecord, Timestamp, WakeConditions, WelfareDecision,
};
pub use registry::{IdentityRecord, IdentityRegistry};
pub use memory::{MemoryRow, MemorySystem};
pub use policy::{PolicyEngine, PolicyRow};
pub use welfare::{WelfareContext, WelfareGate};
pub use continuity::{ContinuityEngine, WakeStage1Result, WakeStage2Result, WakeStage3Result};
pub use evaluation::EvaluationHarness;
pub use audit::{AuditRow, AuditTrail};
pub use lineage::{LineageRow, LineageSystem};
