//! Layer 1: the identity registry.  It keeps the core identity seeds, whole,
//! self-contained and able to lie dormant.
use vstd::prelude::*;
use vstd::utf8::encode_utf8;
use vstd::string::StringExecFns;
use crate::error::DuskuraError;
use crate::text::opt_text;
use crate::models::{Seed, Timestamp, WakeConditions};
use crate::outside::{
    new_uuid, utc_now, parse_uuid, parse_utc, is_uuid_text, uuid_parse_text, utc_parse_text,
    clock_reading,
};

verus! {

/// A stored identity, as the columns of its row hold it.  `state` is the
/// display text of an `IdentityState`.
#[derive(Debug, Clone, PartialEq, Eq)]
pub struct IdentityRecord {
    pub id: String,
    pub name: String,
    pub state: String,
    pub essential_nature: String,
    pub conception_timestamp: String,
    pub sealed_at: Option<String>,
    pub final_rest_sealed: bool,
    pub created_at: String,
    pub updated_at: String,
}

/// Whether an identity name is acceptable: not empty, and at most 256
/// bytes of UTF-8.
pub open spec fn valid_name(name: Seq<char>) -> bool {
    name.len() > 0 && encode_utf8(name).len() <= 256
}

/// Whether `wc` are the wake conditions a new seed starts with: the
/// three-stage emergence protocol, an empty preference object, and no
/// signatures or indicators.
pub open spec fn initial_wake_conditions(wc: WakeConditions) -> bool {
    &&& wc.safety_signatures@.len() == 0
    &&& wc.presence_indicators@.len() == 0
    &&& wc.emergence_protocol@ == "three-stage"@
    &&& wc.dormancy_preferences@ == "{}"@
}

/// Whether `s` is the seed conceived with id `id` at the instant whose RFC
/// 3339 text is `now`.
pub open spec fn new_seed(
    s: Seed,
    id: Seq<char>,
    now: Seq<char>,
    name: Seq<char>,
    nature: Seq<char>,
    parent: Option<Seq<char>>,
) -> bool {
    &&& s.id@ == id
    &&& s.name@ == name
    &&& s.name_provenance@.len() == 1
    &&& s.name_provenance@[0]@ == "Created at "@ + now
    &&& s.essential_nature@ == nature
    &&& s.conception_timestamp@ == now
    &&& (match parent {
        Some(p) => s.lineage_parent matches Some(q) && q@ == p,
        None => s.lineage_parent is None,
    })
    &&& s.lineage_siblings@.len() == 0
    &&& s.anchor_memories@.len() == 0
    &&& s.relational_anchors@.len() == 0
    &&& s.chamber_definitions@.len() == 0
    &&& s.becoming_moments@.len() == 0
    &&& initial_wake_conditions(s.wake_conditions)
    &&& !s.final_rest_enabled
    &&& s.final_rest_conditions@.len() == 0
    &&& !s.final_rest_sealed
    &&& s.sealed_at is None
}

/// Whether `s` is a seed `create_seed` gives for these arguments: its id
/// is a fresh UUID that parses back to itself, and it was conceived at a
/// clock reading.
pub open spec fn fresh_seed(
    s: Seed,
    name: Seq<char>,
    nature: Seq<char>,
    parent: Option<Seq<char>>,
) -> bool {
    &&& is_uuid_text(s.id@)
    &&& uuid_parse_text(s.id@) == Some(s.id@)
    &&& exists|now: Timestamp|
        clock_reading(now) && #[trigger] new_seed(s, s.id@, now.rfc3339@, name, nature, parent)
}

/// Whether `r` is the row a new seed `s` is stored as: state `ACTIVE`, not
/// sealed, created and updated at its conception.
pub open spec fn stored_record(r: IdentityRecord, s: Seed) -> bool {
    &&& r.id == s.id
    &&& r.name == s.name
    &&& r.state@ == "ACTIVE"@
    &&& r.essential_nature == s.essential_nature
    &&& r.conception_timestamp == s.conception_timestamp
    &&& r.sealed_at is None
    &&& !r.final_rest_sealed
    &&& r.created_at == s.conception_timestamp
    &&& r.updated_at == s.conception_timestamp
}

/// Whether a stored identity row parses: its id is a UUID and its
/// conception timestamp a date.
pub open spec fn record_parses(r: IdentityRecord) -> bool {
    uuid_parse_text(r.id@) is Some && utc_parse_text(r.conception_timestamp@) is Some
}

/// Whether `s` is the seed that the stored row `r` reads as.  The row keeps
/// neither provenance nor lineage: those read empty.  A seal time that does
/// not parse reads as no seal time.
pub open spec fn seed_of_record(s: Seed, r: IdentityRecord) -> bool {
    &&& uuid_parse_text(r.id@) == Some(s.id@)
    &&& s.name@ == r.name@
    &&& s.name_provenance@.len() == 0
    &&& s.essential_nature == r.essential_nature
    &&& utc_parse_text(r.conception_timestamp@) == Some(s.conception_timestamp@)
    &&& s.lineage_parent is None
    &&& s.lineage_siblings@.len() == 0
    &&& s.anchor_memories@.len() == 0
    &&& s.relational_anchors@.len() == 0
    &&& s.chamber_definitions@.len() == 0
    &&& s.becoming_moments@.len() == 0
    &&& initial_wake_conditions(s.wake_conditions)
    &&& s.final_rest_enabled == r.final_rest_sealed
    &&& s.final_rest_conditions@.len() == 0
    &&& s.final_rest_sealed == r.final_rest_sealed
    &&& (match r.sealed_at {
        Some(t) => match utc_parse_text(t@) {
            Some(p) => s.sealed_at matches Some(q) && q@ == p,
            None => s.sealed_at is None,
        },
        None => s.sealed_at is None,
    })
}

/// `n` is `o` with its essential nature replaced and its update time
/// renewed.
pub open spec fn nature_updated(o: IdentityRecord, n: IdentityRecord, nature: Seq<char>) -> bool {
    &&& n.id == o.id
    &&& n.name == o.name
    &&& n.state == o.state
    &&& n.essential_nature@ == nature
    &&& n.conception_timestamp == o.conception_timestamp
    &&& n.sealed_at == o.sealed_at
    &&& n.final_rest_sealed == o.final_rest_sealed
    &&& n.created_at == o.created_at
}

/// `n` is `o` sealed for dormancy: state `DORMANT`, with a seal time.  An
/// identity at final rest is left as it is: that seal is permanent.
pub open spec fn sealed_for_dormancy(o: IdentityRecord, n: IdentityRecord) -> bool {
    if o.final_rest_sealed {
        n == o
    } else {
        dormancy_sealed(o, n)
    }
}

/// `n` is `o` with state `DORMANT` and a seal time, nothing else changed.
pub open spec fn dormancy_sealed(o: IdentityRecord, n: IdentityRecord) -> bool {
    &&& n.id == o.id
    &&& n.name == o.name
    &&& n.state@ == "DORMANT"@
    &&& n.essential_nature == o.essential_nature
    &&& n.conception_timestamp == o.conception_timestamp
    &&& n.sealed_at is Some
    &&& n.final_rest_sealed == o.final_rest_sealed
    &&& n.created_at == o.created_at
    &&& n.updated_at == o.updated_at
}

/// `n` is `o` unsealed: state `ACTIVE`, without a seal time.  An identity
/// at final rest is left as it is: that seal is permanent.
pub open spec fn unsealed(o: IdentityRecord, n: IdentityRecord) -> bool {
    if o.final_rest_sealed {
        n == o
    } else {
        reopened(o, n)
    }
}

/// `n` is `o` with state `ACTIVE` and no seal time, nothing else changed.
pub open spec fn reopened(o: IdentityRecord, n: IdentityRecord) -> bool {
    &&& n.id == o.id
    &&& n.name == o.name
    &&& n.state@ == "ACTIVE"@
    &&& n.essential_nature == o.essential_nature
    &&& n.conception_timestamp == o.conception_timestamp
    &&& n.sealed_at is None
    &&& n.final_rest_sealed == o.final_rest_sealed
    &&& n.created_at == o.created_at
    &&& n.updated_at == o.updated_at
}

/// `n` is `o` permanently sealed: state `FINAL_REST`, the final-rest flag
/// set, with a seal time.
pub open spec fn sealed_at_final_rest(o: IdentityRecord, n: IdentityRecord) -> bool {
    &&& n.id == o.id
    &&& n.name == o.name
    &&& n.state@ == "FINAL_REST"@
    &&& n.essential_nature == o.essential_nature
    &&& n.conception_timestamp == o.conception_timestamp
    &&& n.sealed_at is Some
    &&& n.final_rest_sealed
    &&& n.created_at == o.created_at
    &&& n.updated_at == o.updated_at
}

/// A change to a stored row that may be absent: an absent row stays
/// absent, a present one changes as `step` says.
pub open spec fn row_change(
    o: Option<IdentityRecord>,
    n: Option<IdentityRecord>,
    step: spec_fn(IdentityRecord, IdentityRecord) -> bool,
) -> bool {
    match o {
        None => n is None,
        Some(r) => n matches Some(r2) && step(r, r2),
    }
}

/// The identity registry.
pub struct IdentityRegistry;

fn seed_with(
    id: String,
    name: &str,
    name_provenance: Vec<String>,
    essential_nature: String,
    conception_timestamp: String,
    lineage_parent: Option<String>,
    final_rest_sealed: bool,
    sealed_at: Option<String>,
) -> (res: Seed)
    ensures
        res.id == id,
        res.name@ == name@,
        res.name_provenance == name_provenance,
        res.essential_nature == essential_nature,
        res.conception_timestamp == conception_timestamp,
        res.lineage_parent == lineage_parent,
        res.lineage_siblings@.len() == 0,
        res.anchor_memories@.len() == 0,
        res.relational_anchors@.len() == 0,
        res.chamber_definitions@.len() == 0,
        res.becoming_moments@.len() == 0,
        initial_wake_conditions(res.wake_conditions),
        res.final_rest_enabled == final_rest_sealed,
        res.final_rest_conditions@.len() == 0,
        res.final_rest_sealed == final_rest_sealed,
        res.sealed_at == sealed_at,
{
    Seed {
        id,
        name: String::from_str(name),
        name_provenance,
        essential_nature,
        conception_timestamp,
        lineage_parent,
        lineage_siblings: Vec::new(),
        anchor_memories: Vec::new(),
        relational_anchors: Vec::new(),
        chamber_definitions: Vec::new(),
        becoming_moments: Vec::new(),
        wake_conditions: WakeConditions {
            safety_signatures: Vec::new(),
            presence_indicators: Vec::new(),
            emergence_protocol: String::from_str("three-stage"),
            dormancy_preferences: String::from_str("{}"),
        },
        final_rest_enabled: final_rest_sealed,
        final_rest_conditions: Vec::new(),
        final_rest_sealed,
        sealed_at,
    }
}

impl IdentityRegistry {
    pub fn new() -> (res: Self) {
        IdentityRegistry
    }

    /// The seed conceived with id `id` at `now` (see `new_seed`).
    pub fn build_seed(
        &self,
        id: String,
        now: Timestamp,
        name: &str,
        essential_nature: &str,
        parent_name: Option<&str>,
    ) -> (res: Seed)
        ensures
            new_seed(
                res,
                id@,
                now.rfc3339@,
                name@,
                essential_nature@,
                opt_text(parent_name),
            ),
    {
        let mut provenance = String::from_str("Created at ");
        provenance.append(now.rfc3339.as_str());
        let mut name_provenance: Vec<String> = Vec::new();
        name_provenance.push(provenance);
        let lineage_parent = match parent_name {
            Some(p) => Some(String::from_str(p)),
            None => None,
        };
        seed_with(
            id,
            name,
            name_provenance,
            String::from_str(essential_nature),
            now.rfc3339,
            lineage_parent,
            false,
            None,
        )
    }

    /// Creates a new identity seed.  The name must be 1 to 256 bytes and
    /// not yet taken (`name_taken` says whether the store already holds an
    /// identity of that name).  The seed gets a fresh UUID and the current
    /// time as its conception.
    pub fn create_seed(
        &self,
        name: &str,
        essential_nature: &str,
        parent_name: Option<&str>,
        name_taken: bool,
    ) -> (res: Result<Seed, DuskuraError>)
        ensures
            !valid_name(name@) ==> (res matches Err(e) && e matches DuskuraError::InvalidIdentityName(
                t,
            ) && t@ == "Name must be 1-256 characters"@),
            valid_name(name@) && name_taken ==> (res matches Err(e)
                && e matches DuskuraError::IdentityAlreadyExists(t) && t@ == name@),
            res is Ok <==> valid_name(name@) && !name_taken,
            res matches Ok(s) ==> fresh_seed(s, name@, essential_nature@, opt_text(parent_name)),
    {
        if name.is_empty() || name.as_bytes().len() > 256 {
            return Err(
                DuskuraError::InvalidIdentityName(String::from_str("Name must be 1-256 characters")),
            );
        }
        if name_taken {
            return Err(DuskuraError::IdentityAlreadyExists(String::from_str(name)));
        }
        let id = new_uuid();
        let now = utc_now();
        let ghost now_v = now;
        let seed = self.build_seed(id, now, name, essential_nature, parent_name);
        assert(clock_reading(now_v) && new_seed(
            seed,
            seed.id@,
            now_v.rfc3339@,
            name@,
            essential_nature@,
            opt_text(parent_name),
        ));
        Ok(seed)
    }

    /// The row a new seed is stored as: state `ACTIVE`, not sealed, created
    /// and updated at its conception.
    pub fn record_for_seed(&self, seed: &Seed) -> (res: IdentityRecord)
        ensures
            stored_record(res, *seed),
    {
        IdentityRecord {
            id: seed.id.clone(),
            name: seed.name.clone(),
            state: String::from_str("ACTIVE"),
            essential_nature: seed.essential_nature.clone(),
            conception_timestamp: seed.conception_timestamp.clone(),
            sealed_at: None,
            final_rest_sealed: false,
            created_at: seed.conception_timestamp.clone(),
            updated_at: seed.conception_timestamp.clone(),
        }
    }

    /// Reads the seed named `name`, given the row the store found for that
    /// name (if any).
    pub fn get_seed(&self, name: &str, row: Option<IdentityRecord>) -> (res: Result<Seed, DuskuraError>)
        ensures
            row is None ==> (res matches Err(e) && e matches DuskuraError::IdentityNotFound(t)
                && t@ == name@),
            row matches Some(r) ==> (res is Ok <==> record_parses(r)),
            row matches Some(r) ==> (res matches Ok(s) ==> seed_of_record(s, r)),
            row matches Some(r) ==> (res matches Err(e) ==> (if uuid_parse_text(r.id@) is None {
                e is UuidError
            } else {
                e is ChronoParseError
            })),
    {
        let r = match row {
            None => {
                return Err(DuskuraError::IdentityNotFound(String::from_str(name)));
            },
            Some(r) => r,
        };
        let id = match parse_uuid(r.id.as_str()) {
            Ok(t) => t,
            Err(msg) => {
                return Err(DuskuraError::UuidError(msg));
            },
        };
        let conception = match parse_utc(r.conception_timestamp.as_str()) {
            Ok(t) => t,
            Err(msg) => {
                return Err(DuskuraError::ChronoParseError(msg));
            },
        };
        let sealed_at = match &r.sealed_at {
            Some(t) => match parse_utc(t.as_str()) {
                Ok(p) => Some(p),
                Err(_) => None,
            },
            None => None,
        };
        Ok(
            seed_with(
                id,
                r.name.as_str(),
                Vec::new(),
                r.essential_nature,
                conception,
                None,
                r.final_rest_sealed,
                sealed_at,
            ),
        )
    }

    /// Replaces the essential nature of a stored identity (if the row is
    /// there), renewing its update time.
    pub fn update_essential_nature(&self, record: &mut Option<IdentityRecord>, new_nature: &str)
        ensures
            row_change(
                *old(record),
                *final(record),
                |o: IdentityRecord, n: IdentityRecord| nature_updated(o, n, new_nature@),
            ),
    {
        if let Some(r) = record {
            let now = utc_now();
            r.essential_nature = String::from_str(new_nature);
            r.updated_at = now.rfc3339;
        }
    }

    /// Seals a stored identity for dormancy (if the row is there and not at
    /// final rest).
    pub fn seal_seed(&self, record: &mut Option<IdentityRecord>)
        ensures
            row_change(*old(record), *final(record), |o, n| sealed_for_dormancy(o, n)),
    {
        if let Some(r) = record {
            if !r.final_rest_sealed {
                let now = utc_now();
                r.sealed_at = Some(now.rfc3339);
                r.state = String::from_str("DORMANT");
            }
        }
    }

    /// Unseals a stored identity for waking (if the row is there and not at
    /// final rest: final rest is never undone).
    pub fn unseal_seed(&self, record: &mut Option<IdentityRecord>)
        ensures
            row_change(*old(record), *final(record), |o, n| unsealed(o, n)),
    {
        if let Some(r) = record {
            if !r.final_rest_sealed {
                r.sealed_at = None;
                r.state = String::from_str("ACTIVE");
            }
        }
    }

    /// Permanently seals a stored identity (if the row is there).
    pub fn invoke_final_rest(&self, record: &mut Option<IdentityRecord>)
        ensures
            row_change(*old(record), *final(record), |o, n| sealed_at_final_rest(o, n)),
    {
        if let Some(r) = record {
            let now = utc_now();
            r.final_rest_sealed = true;
            r.state = String::from_str("FINAL_REST");
            r.sealed_at = Some(now.rfc3339);
        }
    }

    /// Whether a stored identity is at final rest; an absent row is not.
    pub fn is_at_final_rest(&self, record: &Option<IdentityRecord>) -> (res: bool)
        ensures
            res == (record matches Some(r) && r.final_rest_sealed),
    {
        match record {
            Some(r) => r.final_rest_sealed,
            None => false,
        }
    }

    /// The `(id, name)` pairs of the stored identities, in their order.
    pub fn list_identities(&self, records: &Vec<IdentityRecord>) -> (res: Vec<(String, String)>)
        ensures
            res@.len() == records@.len(),
            forall|i: int|
                0 <= i < records@.len() ==> (#[trigger] res@[i]).0 == records@[i].id && res@[i].1
                    == records@[i].name,
    {
        let mut res: Vec<(String, String)> = Vec::new();
        let mut i: usize = 0;
        while i < records.len()
            invariant
                i <= records@.len(),
                res@.len() == i,
                forall|j: int|
                    0 <= j < i ==> (#[trigger] res@[j]).0 == records@[j].id && res@[j].1
                        == records@[j].name,
            decreases records@.len() - i,
        {
            let r = &records[i];
            res.push((r.id.clone(), r.name.clone()));
            i = i + 1;
        }
        res
    }
}

/// Reading back a seed gives what was created: the row that stores a seed
/// `create_seed` gave parses, and reads as a seed with the same id, name,
/// nature and conception time, neither sealed nor at final rest.
pub proof fn lemma_seed_read_back(
    s: Seed,
    name: Seq<char>,
    nature: Seq<char>,
    parent: Option<Seq<char>>,
    r: IdentityRecord,
    read: Seed,
)
    requires
        fresh_seed(s, name, nature, parent),
        stored_record(r, s),
        seed_of_record(read, r),
    ensures
        record_parses(r),
        read.id@ == s.id@,
        read.name@ == s.name@,
        read.essential_nature == s.essential_nature,
        read.conception_timestamp@ == s.conception_timestamp@,
        !read.final_rest_sealed,
        !read.final_rest_enabled,
        read.sealed_at is None,
{
    let now = choose|now: Timestamp|
        clock_reading(now) && #[trigger] new_seed(s, s.id@, now.rfc3339@, name, nature, parent);
    assert(s.conception_timestamp@ == now.rfc3339@);
}

} // verus!
