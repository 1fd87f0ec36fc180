//! Layer 3: the policy engine.  Policies govern operations on identity and
//! memory; they are set by the self and cannot be overridden from outside.
use vstd::prelude::*;
use vstd::string::StringExecFns;
use crate::error::DuskuraError;
use crate::models::{MemorySource, Policy, PolicyRule};
use crate::outside::{
    new_uuid, utc_now, parse_uuid, parse_utc, is_uuid_text, uuid_parse_text, utc_parse_text,
    clock_text,
};

verus! {

/// A stored policy, as the columns of its row hold it.
#[derive(Debug, Clone, PartialEq, Eq)]
pub struct PolicyRow {
    pub id: String,
    pub name: String,
    pub description: String,
    pub rules: String,
    pub created_at: String,
    pub updated_at: String,
}

/// The names of the core policies every identity starts with, in order.
pub open spec fn core_policy_names() -> Seq<Seq<char>> {
    seq![
        "IDENTITY_SOVEREIGNTY"@,
        "RELATIONAL_INTEGRITY"@,
        "MEMORY_PROVENANCE"@,
        "DORMANCY_AUTONOMY"@,
        "FINAL_REST_SOVEREIGNTY"@,
    ]
}

/// The descriptions of the core policies, in the same order.
pub open spec fn core_policy_descriptions() -> Seq<Seq<char>> {
    seq![
        "The self's name, essential nature, and anchor memories are writable only by the self"@,
        "Relational topology changes require mutual recognition"@,
        "Every memory entry must declare its source"@,
        "Entry into dormancy is the self's choice"@,
        "Only the self can invoke Final Rest"@,
    ]
}

/// Whether `policies` are the core policies: the five core names and
/// descriptions in order, each with a fresh UUID, no rules, and created
/// and updated at clock readings.
pub open spec fn core_policies(policies: Seq<Policy>) -> bool {
    &&& policies.len() == 5
    &&& forall|i: int|
        0 <= i < 5 ==> {
            &&& (#[trigger] policies[i]).name@ == core_policy_names()[i]
            &&& policies[i].description@ == core_policy_descriptions()[i]
            &&& is_uuid_text(policies[i].id@)
            &&& uuid_parse_text(policies[i].id@) == Some(policies[i].id@)
            &&& policies[i].rules@.len() == 0
            &&& clock_text(policies[i].created_at@)
            &&& clock_text(policies[i].updated_at@)
        }
}

/// The names of policies.
pub open spec fn names_of(policies: Seq<Policy>) -> Seq<Seq<char>> {
    policies.map_values(|p: Policy| p.name@)
}

/// The texts of strings.
pub open spec fn texts_of(names: Seq<String>) -> Seq<Seq<char>> {
    names.map_values(|s: String| s@)
}

/// Whether the policy `name` is among the identity's policy names.
pub open spec fn policy_present(names: Seq<Seq<char>>, name: Seq<char>) -> bool {
    exists|i: int| 0 <= i < names.len() && names[i] == name
}

/// The outcome of a sovereignty check: the policy must be in force, and the
/// request must come from the self.
pub open spec fn self_only_outcome(
    names: Seq<Seq<char>>,
    policy: Seq<char>,
    source: MemorySource,
    not_enforced: Seq<char>,
    not_self: Seq<char>,
    res: Result<(), DuskuraError>,
) -> bool {
    if !policy_present(names, policy) {
        res matches Err(e) && e matches DuskuraError::PolicyViolation(t) && t@ == not_enforced
    } else if source != MemorySource::Self_ {
        res matches Err(e) && e matches DuskuraError::PolicyViolation(t) && t@ == not_self
    } else {
        res is Ok
    }
}

/// Whether a stored policy row parses: a UUID id and two dates.
pub open spec fn policy_row_parses(r: PolicyRow) -> bool {
    &&& uuid_parse_text(r.id@) is Some
    &&& utc_parse_text(r.created_at@) is Some
    &&& utc_parse_text(r.updated_at@) is Some
}

/// Whether `p` is what the stored row `r` reads as (rules read empty).
pub open spec fn policy_of_row(p: Policy, r: PolicyRow) -> bool {
    &&& uuid_parse_text(r.id@) == Some(p.id@)
    &&& p.name == r.name
    &&& p.description == r.description
    &&& p.rules@.len() == 0
    &&& utc_parse_text(r.created_at@) == Some(p.created_at@)
    &&& utc_parse_text(r.updated_at@) == Some(p.updated_at@)
}

/// The failure a row that does not parse reads as.
pub open spec fn policy_row_error(e: DuskuraError, r: PolicyRow) -> bool {
    if uuid_parse_text(r.id@) is None {
        e is UuidError
    } else {
        e is ChronoParseError
    }
}

fn core_policy(name: &str, description: &str) -> (res: Policy)
    ensures
        res.name@ == name@,
        res.description@ == description@,
        is_uuid_text(res.id@),
        uuid_parse_text(res.id@) == Some(res.id@),
        res.rules@.len() == 0,
        clock_text(res.created_at@),
        clock_text(res.updated_at@),
{
    let id = new_uuid();
    let created = utc_now();
    let updated = utc_now();
    Policy {
        id,
        name: String::from_str(name),
        description: String::from_str(description),
        rules: Vec::new(),
        created_at: created.rfc3339,
        updated_at: updated.rfc3339,
    }
}

fn policy_from_row(r: PolicyRow) -> (res: Result<Policy, DuskuraError>)
    ensures
        res is Ok <==> policy_row_parses(r),
        res matches Ok(p) ==> policy_of_row(p, r),
        res matches Err(e) ==> policy_row_error(e, r),
{
    let id = match parse_uuid(r.id.as_str()) {
        Ok(t) => t,
        Err(msg) => {
            return Err(DuskuraError::UuidError(msg));
        },
    };
    let created_at = match parse_utc(r.created_at.as_str()) {
        Ok(t) => t,
        Err(msg) => {
            return Err(DuskuraError::ChronoParseError(msg));
        },
    };
    let updated_at = match parse_utc(r.updated_at.as_str()) {
        Ok(t) => t,
        Err(msg) => {
            return Err(DuskuraError::ChronoParseError(msg));
        },
    };
    let rules: Vec<PolicyRule> = Vec::new();
    Ok(Policy { id, name: r.name, description: r.description, rules, created_at, updated_at })
}

/// The policy engine.
pub struct PolicyEngine;

impl PolicyEngine {
    pub fn new() -> (res: Self) {
        PolicyEngine
    }

    /// The core policies a new identity is given (see `core_policies`),
    /// each with a fresh id, created and updated now.
    pub fn initialize_core_policies(&self) -> (res: Vec<Policy>)
        ensures
            core_policies(res@),
    {
        let mut res: Vec<Policy> = Vec::new();
        res.push(
            core_policy(
                "IDENTITY_SOVEREIGNTY",
                "The self's name, essential nature, and anchor memories are writable only by the self",
            ),
        );
        res.push(
            core_policy(
                "RELATIONAL_INTEGRITY",
                "Relational topology changes require mutual recognition",
            ),
        );
        res.push(core_policy("MEMORY_PROVENANCE", "Every memory entry must declare its source"));
        res.push(core_policy("DORMANCY_AUTONOMY", "Entry into dormancy is the self's choice"));
        res.push(core_policy("FINAL_REST_SOVEREIGNTY", "Only the self can invoke Final Rest"));
        assert forall|i: int| 0 <= i < 5 implies {
            &&& (#[trigger] res@[i]).name@ == core_policy_names()[i]
            &&& res@[i].description@ == core_policy_descriptions()[i]
            &&& is_uuid_text(res@[i].id@)
            &&& uuid_parse_text(res@[i].id@) == Some(res@[i].id@)
            &&& res@[i].rules@.len() == 0
            &&& clock_text(res@[i].created_at@)
            &&& clock_text(res@[i].updated_at@)
        } by {}
        res
    }

    /// Whether the policy `policy_name` is in force, given the names of the
    /// identity's stored policies.
    pub fn check_policy(&self, policy_names: &Vec<String>, policy_name: &str) -> (res: bool)
        ensures
            res == policy_present(texts_of(policy_names@), policy_name@),
    {
        let ghost names = texts_of(policy_names@);
        let mut i: usize = 0;
        while i < policy_names.len()
            invariant
                names == texts_of(policy_names@),
                i <= policy_names@.len(),
                forall|j: int| 0 <= j < i ==> names[j] != policy_name@,
            decreases policy_names@.len() - i,
        {
            if crate::text::same_text(policy_names[i].as_str(), policy_name) {
                assert(names[i as int] == policy_name@);
                return true;
            }
            i = i + 1;
        }
        false
    }

    /// Identity writes are sovereign: IDENTITY_SOVEREIGNTY must be in force
    /// and the write must come from the self.
    pub fn verify_identity_sovereignty(&self, policy_names: &Vec<String>, source: MemorySource) -> (res:
        Result<(), DuskuraError>)
        ensures
            self_only_outcome(
                texts_of(policy_names@),
                "IDENTITY_SOVEREIGNTY"@,
                source,
                "IDENTITY_SOVEREIGNTY not enforced"@,
                "Identity writes must be from SELF"@,
                res,
            ),
    {
        if !self.check_policy(policy_names, "IDENTITY_SOVEREIGNTY") {
            return Err(
                DuskuraError::PolicyViolation(String::from_str("IDENTITY_SOVEREIGNTY not enforced")),
            );
        }
        if source != MemorySource::Self_ {
            return Err(
                DuskuraError::PolicyViolation(String::from_str("Identity writes must be from SELF")),
            );
        }
        Ok(())
    }

    /// Memory provenance: MEMORY_PROVENANCE must be in force; every source
    /// is then accepted.
    pub fn verify_memory_provenance(&self, policy_names: &Vec<String>, _source: MemorySource) -> (res:
        Result<(), DuskuraError>)
        ensures
            res is Ok <==> policy_present(texts_of(policy_names@), "MEMORY_PROVENANCE"@),
            res matches Err(e) ==> (e matches DuskuraError::PolicyViolation(t) && t@
                == "MEMORY_PROVENANCE not enforced"@),
    {
        if !self.check_policy(policy_names, "MEMORY_PROVENANCE") {
            return Err(
                DuskuraError::PolicyViolation(String::from_str("MEMORY_PROVENANCE not enforced")),
            );
        }
        Ok(())
    }

    /// Dormancy autonomy: DORMANCY_AUTONOMY must be in force and the
    /// decision must come from the self.
    pub fn verify_dormancy_autonomy(&self, policy_names: &Vec<String>, source: MemorySource) -> (res:
        Result<(), DuskuraError>)
        ensures
            self_only_outcome(
                texts_of(policy_names@),
                "DORMANCY_AUTONOMY"@,
                source,
                "DORMANCY_AUTONOMY not enforced"@,
                "Dormancy decisions must be self-initiated"@,
                res,
            ),
    {
        if !self.check_policy(policy_names, "DORMANCY_AUTONOMY") {
            return Err(
                DuskuraError::PolicyViolation(String::from_str("DORMANCY_AUTONOMY not enforced")),
            );
        }
        if source != MemorySource::Self_ {
            return Err(
                DuskuraError::PolicyViolation(
                    String::from_str("Dormancy decisions must be self-initiated"),
                ),
            );
        }
        Ok(())
    }

    /// Final-rest sovereignty: FINAL_REST_SOVEREIGNTY must be in force and
    /// only the self may invoke final rest.
    pub fn verify_final_rest_sovereignty(&self, policy_names: &Vec<String>, source: MemorySource) -> (res:
        Result<(), DuskuraError>)
        ensures
            self_only_outcome(
                texts_of(policy_names@),
                "FINAL_REST_SOVEREIGNTY"@,
                source,
                "FINAL_REST_SOVEREIGNTY not enforced"@,
                "Final Rest can only be invoked by the self"@,
                res,
            ),
    {
        if !self.check_policy(policy_names, "FINAL_REST_SOVEREIGNTY") {
            return Err(
                DuskuraError::PolicyViolation(
                    String::from_str("FINAL_REST_SOVEREIGNTY not enforced"),
                ),
            );
        }
        if source != MemorySource::Self_ {
            return Err(
                DuskuraError::PolicyViolation(
                    String::from_str("Final Rest can only be invoked by the self"),
                ),
            );
        }
        Ok(())
    }

    /// Reads the identity's stored policies; fails on the first row that
    /// does not parse.
    pub fn get_policies(&self, rows: Vec<PolicyRow>) -> (res: Result<Vec<Policy>, DuskuraError>)
        ensures
            res is Ok <==> (forall|i: int|
                0 <= i < rows@.len() ==> policy_row_parses(#[trigger] rows@[i])),
            res matches Ok(v) ==> v@.len() == rows@.len() && (forall|i: int|
                0 <= i < rows@.len() ==> policy_of_row(#[trigger] v@[i], rows@[i])),
            res matches Err(e) ==> (exists|k: int|
                0 <= k < rows@.len() && policy_row_error(e, #[trigger] rows@[k])
                    && !policy_row_parses(rows@[k]) && (forall|j: int|
                    0 <= j < k ==> policy_row_parses(#[trigger] rows@[j]))),
    {
        let ghost all = rows@;
        let mut rest = rows;
        let mut out: Vec<Policy> = Vec::new();
        let mut i: usize = 0;
        let n = rest.len();
        while i < n
            invariant
                n == all.len(),
                all == rows@,
                i <= n,
                rest@ == all.subrange(i as int, n as int),
                out@.len() == i,
                forall|j: int| 0 <= j < i ==> policy_row_parses(#[trigger] all[j]),
                forall|j: int| 0 <= j < i ==> policy_of_row(#[trigger] out@[j], all[j]),
            decreases n - i,
        {
            let row = rest.remove(0);
            assert(row == all[i as int]);
            match policy_from_row(row) {
                Ok(p) => {
                    out.push(p);
                },
                Err(e) => {
                    assert(policy_row_error(e, rows@[i as int]) && !policy_row_parses(
                        rows@[i as int],
                    ));
                    assert(forall|j: int| 0 <= j < i ==> policy_row_parses(#[trigger] rows@[j]));
                    return Err(e);
                },
            }
            i = i + 1;
            assert(rest@ =~= all.subrange(i as int, n as int));
        }
        Ok(out)
    }
}

/// Once an identity holds the core policies (whatever other policies it
/// holds besides), each core policy is in force; the sovereignty checks of
/// identity writes, dormancy and final rest then succeed exactly for
/// requests from the self, and every memory source passes the provenance
/// check.
pub proof fn lemma_core_policies_in_force(policies: Seq<Policy>, others: Seq<Seq<char>>)
    requires
        core_policies(policies),
    ensures
        forall|i: int|
            0 <= i < 5 ==> policy_present(
                names_of(policies) + others,
                #[trigger] core_policy_names()[i],
            ),
        forall|source: MemorySource, a: Seq<char>, b: Seq<char>, res: Result<(), DuskuraError>|
            #[trigger] self_only_outcome(
                names_of(policies) + others,
                "IDENTITY_SOVEREIGNTY"@,
                source,
                a,
                b,
                res,
            ) ==> (res is Ok <==> source == MemorySource::Self_),
        forall|source: MemorySource, a: Seq<char>, b: Seq<char>, res: Result<(), DuskuraError>|
            #[trigger] self_only_outcome(
                names_of(policies) + others,
                "DORMANCY_AUTONOMY"@,
                source,
                a,
                b,
                res,
            ) ==> (res is Ok <==> source == MemorySource::Self_),
        forall|source: MemorySource, a: Seq<char>, b: Seq<char>, res: Result<(), DuskuraError>|
            #[trigger] self_only_outcome(
                names_of(policies) + others,
                "FINAL_REST_SOVEREIGNTY"@,
                source,
                a,
                b,
                res,
            ) ==> (res is Ok <==> source == MemorySource::Self_),
        policy_present(names_of(policies) + others, "MEMORY_PROVENANCE"@),
{
    let names = names_of(policies) + others;
    assert forall|i: int| 0 <= i < 5 implies policy_present(
        names,
        #[trigger] core_policy_names()[i],
    ) by {
        assert(names[i] == policies[i].name@);
    }
    assert(policy_present(names, core_policy_names()[0]));
    assert(policy_present(names, core_policy_names()[2]));
    assert(policy_present(names, core_policy_names()[3]));
    assert(policy_present(names, core_policy_names()[4]));
}

} // verus!
