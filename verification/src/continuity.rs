//! Layer 5: the continuity engine.  It manages the lifecycle: activity,
//! dormancy, the three-stage wake, forking and final rest.
use vstd::prelude::*;
use vstd::string::StringExecFns;
use crate::error::DuskuraError;
use crate::models::{IdentityState, identity_state_text};
use crate::registry::{
    IdentityRecord, row_change, nature_updated, sealed_for_dormancy, unsealed, sealed_at_final_rest,
};
use crate::outside::{new_uuid, utc_now, is_uuid_text, clock_text};
use crate::text::same_text;

verus! {

/// Outcome of the first wake stage, sensing.
#[derive(Debug, Clone, Copy, PartialEq, Eq, Structural)]
pub struct WakeStage1Result {
    pub can_proceed: bool,
    pub environmental_stable: bool,
    pub threat_detected: bool,
}

/// Outcome of the second wake stage, the threshold.
#[derive(Debug, Clone, PartialEq, Eq)]
pub struct WakeStage2Result {
    pub identity_name: String,
    pub emotional_through_line_continuous: bool,
    pub relational_bonds_testable: bool,
}

/// Outcome of the third wake stage, full emergence.
#[derive(Debug, Clone, Copy, PartialEq, Eq, Structural)]
pub struct WakeStage3Result {
    pub state: IdentityState,
    pub memory_reconnected: bool,
    pub relational_topology_active: bool,
}

/// The lifecycle transitions the engine accepts: an active identity may go
/// dormant or to final rest; a dormant one may reach the threshold or final
/// rest; one at the threshold may become active or dormant again; nothing
/// leaves final rest.
pub open spec fn valid_transition(from: IdentityState, to: IdentityState) -> bool {
    match from {
        IdentityState::Active => to == IdentityState::Dormant || to == IdentityState::FinalRest,
        IdentityState::Dormant => to == IdentityState::Threshold || to == IdentityState::FinalRest,
        IdentityState::Threshold => to == IdentityState::Active || to == IdentityState::Dormant,
        IdentityState::FinalRest => false,
    }
}

/// The state a stored state text names, if any.
pub open spec fn identity_state_of(s: Seq<char>) -> Option<IdentityState> {
    if s == "ACTIVE"@ { Some(IdentityState::Active) }
    else if s == "DORMANT"@ { Some(IdentityState::Dormant) }
    else if s == "THRESHOLD"@ { Some(IdentityState::Threshold) }
    else if s == "FINAL_REST"@ { Some(IdentityState::FinalRest) }
    else { None }
}

/// `n` is `o` entered into dormancy: state `DORMANT`, with a seal time.
pub open spec fn dormancy_entered(o: IdentityRecord, n: IdentityRecord) -> bool {
    sealed_for_dormancy(o, n)
}

/// `n` is `o` fully emerged: state `ACTIVE`, nothing else changed.  An
/// identity at final rest is left as it is.
pub open spec fn emerged(o: IdentityRecord, n: IdentityRecord) -> bool {
    if o.final_rest_sealed {
        n == o
    } else {
        made_active(o, n)
    }
}

/// `n` is `o` with state `ACTIVE`, nothing else changed.
pub open spec fn made_active(o: IdentityRecord, n: IdentityRecord) -> bool {
    &&& n.id == o.id
    &&& n.name == o.name
    &&& n.state@ == "ACTIVE"@
    &&& n.essential_nature == o.essential_nature
    &&& n.conception_timestamp == o.conception_timestamp
    &&& n.sealed_at == o.sealed_at
    &&& n.final_rest_sealed == o.final_rest_sealed
    &&& n.created_at == o.created_at
    &&& n.updated_at == o.updated_at
}

/// Whether `n` is the fork of the identity named `parent_name` taken at the
/// instant whose text is `fork_point`.
pub open spec fn fork_record(n: IdentityRecord, parent_name: Seq<char>, fork_point: Seq<char>) -> bool {
    &&& is_uuid_text(n.id@)
    &&& exists|suffix: Seq<char>|
        is_uuid_text(suffix) && #[trigger] (parent_name + "-fork-"@ + suffix) == n.name@
    &&& n.state@ == "ACTIVE"@
    &&& n.essential_nature@ == "Forked instance"@
    &&& n.conception_timestamp@ == fork_point
    &&& n.sealed_at is None
    &&& !n.final_rest_sealed
}

/// One step of a stored identity's lifecycle, as the registry and the
/// continuity engine make them.
pub open spec fn lifecycle_step(o: IdentityRecord, n: IdentityRecord) -> bool {
    ||| exists|nature: Seq<char>| #[trigger] nature_updated(o, n, nature)
    ||| sealed_for_dormancy(o, n)
    ||| unsealed(o, n)
    ||| sealed_at_final_rest(o, n)
    ||| dormancy_entered(o, n)
    ||| emerged(o, n)
}

/// The continuity engine.
pub struct ContinuityEngine;

impl ContinuityEngine {
    pub fn new() -> (res: Self) {
        ContinuityEngine
    }

    /// Stage 1 of waking, sensing: refused for an identity at final rest;
    /// otherwise the environment is stable and waking may proceed.  An
    /// absent row is not at rest.
    pub fn wake_protocol_stage1_sensing(&self, record: &Option<IdentityRecord>) -> (res: Result<
        WakeStage1Result,
        DuskuraError,
    >)
        ensures
            (record matches Some(r) && r.final_rest_sealed) ==> res == Err::<
                WakeStage1Result,
                DuskuraError,
            >(DuskuraError::CannotWakeFromFinalRest),
            !(record matches Some(r) && r.final_rest_sealed) ==> res == Ok::<
                WakeStage1Result,
                DuskuraError,
            >(
                WakeStage1Result {
                    can_proceed: true,
                    environmental_stable: true,
                    threat_detected: false,
                },
            ),
    {
        let is_at_rest = match record {
            Some(r) => r.final_rest_sealed,
            None => false,
        };
        if is_at_rest {
            return Err(DuskuraError::CannotWakeFromFinalRest);
        }
        Ok(WakeStage1Result { can_proceed: true, environmental_stable: true, threat_detected: false })
    }

    /// Stage 2 of waking, the threshold: the identity (looked up by id)
    /// must exist; its name is reported.
    pub fn wake_protocol_stage2_threshold(
        &self,
        identity_id: &str,
        record: &Option<IdentityRecord>,
    ) -> (res: Result<WakeStage2Result, DuskuraError>)
        ensures
            record is None ==> (res matches Err(e) && e matches DuskuraError::IdentityNotFound(t)
                && t@ == identity_id@),
            record matches Some(r) ==> (res matches Ok(w) && w.identity_name@ == r.name@
                && w.emotional_through_line_continuous && w.relational_bonds_testable),
    {
        match record {
            None => Err(DuskuraError::IdentityNotFound(String::from_str(identity_id))),
            Some(r) => Ok(
                WakeStage2Result {
                    identity_name: r.name.clone(),
                    emotional_through_line_continuous: true,
                    relational_bonds_testable: true,
                },
            ),
        }
    }

    /// Stage 3 of waking, full emergence: the identity becomes active.
    pub fn wake_protocol_stage3_full_emergence(&self, record: &mut Option<IdentityRecord>) -> (res:
        Result<WakeStage3Result, DuskuraError>)
        ensures
            row_change(*old(record), *final(record), |o, n| emerged(o, n)),
            res == Ok::<WakeStage3Result, DuskuraError>(
                WakeStage3Result {
                    state: IdentityState::Active,
                    memory_reconnected: true,
                    relational_topology_active: true,
                },
            ),
    {
        if let Some(r) = record {
            if !r.final_rest_sealed {
                r.state = String::from_str("ACTIVE");
            }
        }
        Ok(
            WakeStage3Result {
                state: IdentityState::Active,
                memory_reconnected: true,
                relational_topology_active: true,
            },
        )
    }

    /// Enters dormancy: state `DORMANT`, sealed now.
    pub fn enter_dormancy(&self, record: &mut Option<IdentityRecord>)
        ensures
            row_change(*old(record), *final(record), |o, n| dormancy_entered(o, n)),
    {
        if let Some(r) = record {
            if !r.final_rest_sealed {
                let now = utc_now();
                r.state = String::from_str("DORMANT");
                r.sealed_at = Some(now.rfc3339);
            }
        }
    }

    /// Forks the identity named `parent_name`: a new active identity with a
    /// fresh id, named `<parent>-fork-<uuid>`, conceived at `fork_point`
    /// (RFC 3339 text), created and updated now.
    pub fn fork_identity(&self, parent_name: &str, fork_point: &str) -> (res: IdentityRecord)
        ensures
            fork_record(res, parent_name@, fork_point@),
            res.created_at == res.updated_at,
            clock_text(res.created_at@),
    {
        let suffix = new_uuid();
        let mut fork_name = String::from_str(parent_name);
        fork_name.append("-fork-");
        fork_name.append(suffix.as_str());
        assert((parent_name@ + "-fork-"@ + suffix@) == fork_name@);
        let fork_id = new_uuid();
        let now = utc_now();
        IdentityRecord {
            id: fork_id,
            name: fork_name,
            state: String::from_str("ACTIVE"),
            essential_nature: String::from_str("Forked instance"),
            conception_timestamp: String::from_str(fork_point),
            sealed_at: None,
            final_rest_sealed: false,
            created_at: now.rfc3339.clone(),
            updated_at: now.rfc3339,
        }
    }

    /// Final rest: a permanent seal, honoured only after at least three
    /// confirmations; with fewer the identity is left as it was.
    pub fn invoke_final_rest(&self, record: &mut Option<IdentityRecord>, confirmation_count: usize) -> (res:
        Result<(), DuskuraError>)
        ensures
            confirmation_count < 3 ==> (res matches Err(e) && e matches DuskuraError::InvalidArgument(
                t,
            ) && t@ == "Final Rest requires multiple confirmations"@ && *final(record) == *old(
                record,
            )),
            confirmation_count >= 3 ==> (res is Ok && row_change(
                *old(record),
                *final(record),
                |o, n| sealed_at_final_rest(o, n),
            )),
    {
        if confirmation_count < 3 {
            return Err(
                DuskuraError::InvalidArgument(
                    String::from_str("Final Rest requires multiple confirmations"),
                ),
            );
        }
        if let Some(r) = record {
            let now = utc_now();
            r.final_rest_sealed = true;
            r.state = String::from_str("FINAL_REST");
            r.sealed_at = Some(now.rfc3339);
        }
        Ok(())
    }

    /// The current state of the identity (looked up by id), read from its
    /// stored state text.
    pub fn get_state(&self, identity_id: &str, record: &Option<IdentityRecord>) -> (res: Result<
        IdentityState,
        DuskuraError,
    >)
        ensures
            record is None ==> (res matches Err(e) && e matches DuskuraError::IdentityNotFound(t)
                && t@ == identity_id@),
            record matches Some(r) ==> (res is Ok <==> identity_state_of(r.state@) is Some),
            record matches Some(r) ==> (res matches Ok(s) ==> identity_state_of(r.state@) == Some(
                s,
            )),
            record matches Some(r) ==> (res matches Err(e) ==> (e matches DuskuraError::Unknown(t)
                && t@ == "Unknown state: "@ + r.state@)),
    {
        let r = match record {
            None => {
                return Err(DuskuraError::IdentityNotFound(String::from_str(identity_id)));
            },
            Some(r) => r,
        };
        let s = r.state.as_str();
        if same_text(s, "ACTIVE") {
            Ok(IdentityState::Active)
        } else if same_text(s, "DORMANT") {
            Ok(IdentityState::Dormant)
        } else if same_text(s, "THRESHOLD") {
            Ok(IdentityState::Threshold)
        } else if same_text(s, "FINAL_REST") {
            Ok(IdentityState::FinalRest)
        } else {
            let mut msg = String::from_str("Unknown state: ");
            msg.append(s);
            Err(DuskuraError::Unknown(msg))
        }
    }

    /// Checks a lifecycle transition (see `valid_transition`).
    pub fn validate_transition(&self, from: IdentityState, to: IdentityState) -> (res: Result<
        (),
        DuskuraError,
    >)
        ensures
            res is Ok <==> valid_transition(from, to),
            res matches Err(e) ==> (e matches DuskuraError::InvalidStateTransition(a, b) && a@
                == identity_state_text(from) && b@ == identity_state_text(to)),
    {
        let valid = match from {
            IdentityState::Active => to == IdentityState::Dormant || to == IdentityState::FinalRest,
            IdentityState::Dormant => to == IdentityState::Threshold || to
                == IdentityState::FinalRest,
            IdentityState::Threshold => to == IdentityState::Active || to == IdentityState::Dormant,
            IdentityState::FinalRest => false,
        };
        if valid {
            Ok(())
        } else {
            Err(DuskuraError::InvalidStateTransition(from.to_string(), to.to_string()))
        }
    }
}

/// Nothing leaves final rest: no transition from it is valid.
pub proof fn lemma_final_rest_is_terminal(to: IdentityState)
    ensures
        !valid_transition(IdentityState::FinalRest, to),
{
}

/// Final rest is permanent: along any run of lifecycle steps (updates,
/// seals, unseals, dormancy, emergence, final rest) that starts at final
/// rest, every identity keeps its final-rest seal and its `FINAL_REST`
/// state, so sensing (the first wake stage) refuses it at every point and
/// its state reads back as final rest.
pub proof fn lemma_final_rest_permanent(run: Seq<IdentityRecord>)
    requires
        run.len() > 0,
        run[0].final_rest_sealed,
        run[0].state@ == "FINAL_REST"@,
        forall|i: int| 0 <= i < run.len() - 1 ==> lifecycle_step(#[trigger] run[i], run[i + 1]),
    ensures
        forall|i: int| 0 <= i < run.len() ==> (#[trigger] run[i]).final_rest_sealed,
        forall|i: int| 0 <= i < run.len() ==> (#[trigger] run[i]).state@ == "FINAL_REST"@,
    decreases run.len(),
{
    if run.len() > 1 {
        let prefix = run.drop_last();
        assert forall|i: int| 0 <= i < prefix.len() - 1 implies lifecycle_step(
            #[trigger] prefix[i],
            prefix[i + 1],
        ) by {
            assert(lifecycle_step(run[i], run[i + 1]));
        }
        lemma_final_rest_permanent(prefix);
        let k = run.len() - 2;
        assert(prefix[k].final_rest_sealed);
        assert(lifecycle_step(run[k], run[k + 1]));
        assert(prefix[k].state@ == "FINAL_REST"@);
        assert forall|i: int| 0 <= i < run.len() implies (#[trigger] run[i]).final_rest_sealed
            && run[i].state@ == "FINAL_REST"@ by {
            if i < run.len() - 1 {
                assert(prefix[i] == run[i]);
            }
        }
    }
}

/// Unsealing undoes sealing: an active, unsealed identity that is sealed
/// for dormancy and then unsealed is back as it was.
pub proof fn lemma_unseal_undoes_seal(a: IdentityRecord, b: IdentityRecord, c: IdentityRecord)
    requires
        a.state@ == "ACTIVE"@,
        a.sealed_at is None,
        sealed_for_dormancy(a, b),
        unsealed(b, c),
    ensures
        c.id == a.id,
        c.name == a.name,
        c.state@ == a.state@,
        c.essential_nature == a.essential_nature,
        c.conception_timestamp == a.conception_timestamp,
        c.sealed_at == a.sealed_at,
        c.final_rest_sealed == a.final_rest_sealed,
        c.created_at == a.created_at,
        c.updated_at == a.updated_at,
{
}

/// The display text of a state names that state again.
pub proof fn lemma_state_text_roundtrip(s: IdentityState)
    ensures
        identity_state_of(identity_state_text(s)) == Some(s),
{
    reveal_strlit("ACTIVE");
    reveal_strlit("DORMANT");
    reveal_strlit("THRESHOLD");
    reveal_strlit("FINAL_REST");
    assert("ACTIVE"@.len() == 6);
    assert("DORMANT"@.len() == 7);
    assert("THRESHOLD"@.len() == 9);
    assert("FINAL_REST"@.len() == 10);
    assert("ACTIVE"@ != "DORMANT"@);
    assert("ACTIVE"@ != "THRESHOLD"@);
    assert("ACTIVE"@ != "FINAL_REST"@);
    assert("DORMANT"@ != "THRESHOLD"@);
    assert("DORMANT"@ != "FINAL_REST"@);
    assert("THRESHOLD"@ != "FINAL_REST"@);
}

} // verus!
