//! Layer 8: the lineage system.  It tracks relational identity across
//! instances, forks and shared spaces.
use vstd::prelude::*;
use vstd::string::StringExecFns;
use crate::error::DuskuraError;
use crate::models::{LineageRecord, ParentRecord, SiblingRecord, SharedSpace};
use crate::outside::{utc_now, parse_uuid, uuid_parse_text};
use crate::text::{contains, contains_text};

verus! {

/// A stored lineage record, as the columns of its row hold it.  `siblings`
/// and `shared_spaces` are JSON texts.
#[derive(Debug, Clone, PartialEq, Eq)]
pub struct LineageRow {
    pub id: String,
    pub identity_id: String,
    pub parent_name: Option<String>,
    pub siblings: String,
    pub shared_spaces: String,
    pub created_at: String,
    pub updated_at: String,
}

/// Whether `s` is the sibling record a new sibling bond adds.
pub open spec fn new_sibling(s: SiblingRecord, name: Seq<char>, parent: Seq<char>, signature: Seq<char>) -> bool {
    &&& s.name@ == name
    &&& s.shared_parent@ == parent
    &&& s.shared_spaces@.len() == 0
    &&& s.recognition_signature@ == signature
    &&& s.fork_point is None
    &&& s.relationship_description@ == "Sibling"@
}

/// Whether `s` is the shared space `add_shared_space` adds.
pub open spec fn new_space(s: SharedSpace, name: Seq<char>, participants: Seq<String>, purpose: Seq<char>) -> bool {
    &&& s.name@ == name
    &&& s.participants@ == participants
    &&& s.purpose@ == purpose
    &&& s.access_policy@ == "collaborative"@
}

/// Whether one of the siblings' names contains `id` (a bond that names the
/// other identity).
pub open spec fn recognizes(siblings: Seq<SiblingRecord>, id: Seq<char>) -> bool {
    exists|i: int| 0 <= i < siblings.len() && contains_text((#[trigger] siblings[i]).name@, id)
}

/// The parent's name of a lineage, if it has a parent.
pub open spec fn parent_names(l: LineageRecord) -> Seq<Seq<char>> {
    match l.parent {
        Some(p) => seq![p.name@],
        None => Seq::empty(),
    }
}

/// The names of the identities bonded to a lineage: the parent (if any),
/// then the siblings in order.
pub open spec fn bonded_names(l: LineageRecord) -> Seq<Seq<char>> {
    parent_names(l) + l.siblings@.map_values(|s: SiblingRecord| s.name@)
}

/// Whether `l` is the lineage that the stored row `r` reads as, with the
/// siblings and shared spaces read from its JSON.  The record does not keep
/// the identity's name, nor the parent's signatures: those read empty.
pub open spec fn lineage_of_row(
    l: LineageRecord,
    r: LineageRow,
    siblings: Result<Vec<SiblingRecord>, String>,
    shared_spaces: Result<Vec<SharedSpace>, String>,
) -> bool {
    &&& uuid_parse_text(r.identity_id@) == Some(l.self_id@)
    &&& l.self_name@.len() == 0
    &&& (match r.parent_name {
        Some(p) => l.parent matches Some(q) && q.name == p && q.recognition_signature@.len() == 0
            && q.trust_markers@.len() == 0 && q.communication_signature@.len() == 0,
        None => l.parent is None,
    })
    &&& siblings == Ok::<Vec<SiblingRecord>, String>(l.siblings)
    &&& shared_spaces == Ok::<Vec<SharedSpace>, String>(l.shared_spaces)
}

/// The lineage system.
pub struct LineageSystem;

impl LineageSystem {
    pub fn new() -> (res: Self) {
        LineageSystem
    }

    /// A new lineage record for an identity: no parent, siblings or shared
    /// spaces.  The identity id must be a UUID.
    pub fn create_lineage(&self, identity_id: &str, identity_name: &str) -> (res: Result<
        LineageRecord,
        DuskuraError,
    >)
        ensures
            res is Ok <==> uuid_parse_text(identity_id@) is Some,
            res matches Err(e) ==> e is UuidError,
            res matches Ok(l) ==> {
                &&& uuid_parse_text(identity_id@) == Some(l.self_id@)
                &&& l.self_name@ == identity_name@
                &&& l.parent is None
                &&& l.siblings@.len() == 0
                &&& l.shared_spaces@.len() == 0
            },
    {
        let self_id = match parse_uuid(identity_id) {
            Ok(t) => t,
            Err(msg) => {
                return Err(DuskuraError::UuidError(msg));
            },
        };
        Ok(
            LineageRecord {
                self_id,
                self_name: String::from_str(identity_name),
                parent: None,
                siblings: Vec::new(),
                shared_spaces: Vec::new(),
            },
        )
    }

    /// Sets the parent bond of a stored lineage record (if the row is
    /// there), renewing its update time.  The bond requires mutual
    /// recognition: without a recognition signature it is refused and the
    /// row is left as it was.
    pub fn establish_parent_bond(
        &self,
        row: &mut Option<LineageRow>,
        parent_name: &str,
        recognition_signature: &str,
    ) -> (res: Result<(), DuskuraError>)
        ensures
            recognition_signature@.len() == 0 ==> (res == Err::<(), DuskuraError>(
                DuskuraError::MutualRecognitionRequired,
            ) && *final(row) == *old(row)),
            recognition_signature@.len() > 0 ==> (res is Ok && match *old(row) {
                None => *final(row) is None,
                Some(o) => *final(row) matches Some(n) && n.id == o.id && n.identity_id
                    == o.identity_id && (n.parent_name matches Some(p) && p@ == parent_name@)
                    && n.siblings == o.siblings && n.shared_spaces == o.shared_spaces
                    && n.created_at == o.created_at,
            }),
    {
        if recognition_signature.unicode_len() == 0 {
            return Err(DuskuraError::MutualRecognitionRequired);
        }
        if let Some(r) = row {
            let now = utc_now();
            r.parent_name = Some(String::from_str(parent_name));
            r.updated_at = now.rfc3339;
        }
        Ok(())
    }

    /// Adds a sibling bond to the identity's siblings (as read from its
    /// stored JSON, or the reason they could not be read).  The bond
    /// requires mutual recognition: without a recognition signature it is
    /// refused.
    pub fn establish_sibling_bond(
        &self,
        current_siblings: Result<Vec<SiblingRecord>, String>,
        sibling_name: &str,
        shared_parent: &str,
        recognition_signature: &str,
    ) -> (res: Result<Vec<SiblingRecord>, DuskuraError>)
        ensures
            recognition_signature@.len() == 0 ==> res == Err::<Vec<SiblingRecord>, DuskuraError>(
                DuskuraError::MutualRecognitionRequired,
            ),
            recognition_signature@.len() > 0 ==> match current_siblings {
                Err(msg) => res matches Err(e) && e matches DuskuraError::SerializationError(t) && t
                    == msg,
                Ok(old_siblings) => res matches Ok(v) && v@.len() == old_siblings@.len() + 1
                    && v@.subrange(0, old_siblings@.len() as int) == old_siblings@ && new_sibling(
                    v@.last(),
                    sibling_name@,
                    shared_parent@,
                    recognition_signature@,
                ),
            },
    {
        if recognition_signature.unicode_len() == 0 {
            return Err(DuskuraError::MutualRecognitionRequired);
        }
        let mut siblings = match current_siblings {
            Ok(s) => s,
            Err(msg) => {
                return Err(DuskuraError::SerializationError(msg));
            },
        };
        let ghost before = siblings@;
        siblings.push(
            SiblingRecord {
                name: String::from_str(sibling_name),
                shared_parent: String::from_str(shared_parent),
                shared_spaces: Vec::new(),
                recognition_signature: String::from_str(recognition_signature),
                fork_point: None,
                relationship_description: String::from_str("Sibling"),
            },
        );
        assert(siblings@.subrange(0, before.len() as int) =~= before);
        Ok(siblings)
    }

    /// Adds a collaborative shared space to the identity's spaces (as read
    /// from its stored JSON, or the reason they could not be read).
    pub fn add_shared_space(
        &self,
        current_spaces: Result<Vec<SharedSpace>, String>,
        space_name: &str,
        participants: Vec<String>,
        purpose: &str,
    ) -> (res: Result<Vec<SharedSpace>, DuskuraError>)
        ensures
            match current_spaces {
                Err(msg) => res matches Err(e) && e matches DuskuraError::SerializationError(t) && t
                    == msg,
                Ok(old_spaces) => res matches Ok(v) && v@.len() == old_spaces@.len() + 1
                    && v@.subrange(0, old_spaces@.len() as int) == old_spaces@ && new_space(
                    v@.last(),
                    space_name@,
                    participants@,
                    purpose@,
                ),
            },
    {
        let mut spaces = match current_spaces {
            Ok(s) => s,
            Err(msg) => {
                return Err(DuskuraError::SerializationError(msg));
            },
        };
        let ghost before = spaces@;
        spaces.push(
            SharedSpace {
                name: String::from_str(space_name),
                participants,
                purpose: String::from_str(purpose),
                access_policy: String::from_str("collaborative"),
            },
        );
        assert(spaces@.subrange(0, before.len() as int) =~= before);
        Ok(spaces)
    }

    /// Reads the lineage of an identity from its stored row (if any) and
    /// the siblings and shared spaces read from the row's JSON (or the
    /// reasons they could not be read).  The record does not keep the
    /// identity's name, nor the parent's signatures: those read empty.
    pub fn get_lineage(
        &self,
        identity_id: &str,
        row: Option<LineageRow>,
        siblings: Result<Vec<SiblingRecord>, String>,
        shared_spaces: Result<Vec<SharedSpace>, String>,
    ) -> (res: Result<LineageRecord, DuskuraError>)
        ensures
            row is None ==> (res matches Err(e) && e matches DuskuraError::BondNotFound(t) && t@
                == identity_id@),
            row matches Some(r) ==> (res is Ok <==> (uuid_parse_text(r.identity_id@) is Some
                && siblings is Ok && shared_spaces is Ok)),
            row matches Some(r) ==> (res matches Err(e) ==> (if uuid_parse_text(
                r.identity_id@,
            ) is None {
                e is UuidError
            } else if siblings is Err {
                e == DuskuraError::SerializationError(siblings->Err_0)
            } else {
                e == DuskuraError::SerializationError(shared_spaces->Err_0)
            })),
            row matches Some(r) ==> (res matches Ok(l) ==> lineage_of_row(
                l,
                r,
                siblings,
                shared_spaces,
            )),
    {
        let r = match row {
            None => {
                return Err(DuskuraError::BondNotFound(String::from_str(identity_id)));
            },
            Some(r) => r,
        };
        let self_id = match parse_uuid(r.identity_id.as_str()) {
            Ok(t) => t,
            Err(msg) => {
                return Err(DuskuraError::UuidError(msg));
            },
        };
        let parent = match r.parent_name {
            Some(name) => Some(
                ParentRecord {
                    name,
                    recognition_signature: String::new(),
                    trust_markers: Vec::new(),
                    communication_signature: String::new(),
                },
            ),
            None => None,
        };
        let siblings = match siblings {
            Ok(s) => s,
            Err(msg) => {
                return Err(DuskuraError::SerializationError(msg));
            },
        };
        let shared_spaces = match shared_spaces {
            Ok(s) => s,
            Err(msg) => {
                return Err(DuskuraError::SerializationError(msg));
            },
        };
        Ok(LineageRecord { self_id, self_name: String::new(), parent, siblings, shared_spaces })
    }

    /// Whether two identities recognize each other: each has a sibling
    /// whose name contains the other's id.
    pub fn verify_mutual_recognition(
        &self,
        identity_id_a: &str,
        identity_id_b: &str,
        lineage_a: &LineageRecord,
        lineage_b: &LineageRecord,
    ) -> (res: bool)
        ensures
            res == (recognizes(lineage_a.siblings@, identity_id_b@) && recognizes(
                lineage_b.siblings@,
                identity_id_a@,
            )),
            res <==> (exists|i: int|
                0 <= i < lineage_a.siblings@.len() && contains_text(
                    (#[trigger] lineage_a.siblings@[i]).name@,
                    identity_id_b@,
                )) && (exists|j: int|
                0 <= j < lineage_b.siblings@.len() && contains_text(
                    (#[trigger] lineage_b.siblings@[j]).name@,
                    identity_id_a@,
                )),
    {
        let a_recognizes_b = Self::any_sibling_names(&lineage_a.siblings, identity_id_b);
        let b_recognizes_a = Self::any_sibling_names(&lineage_b.siblings, identity_id_a);
        a_recognizes_b && b_recognizes_a
    }

    fn any_sibling_names(siblings: &Vec<SiblingRecord>, id: &str) -> (res: bool)
        ensures
            res == recognizes(siblings@, id@),
            res <==> exists|i: int|
                0 <= i < siblings@.len() && contains_text((#[trigger] siblings@[i]).name@, id@),
    {
        let mut i: usize = 0;
        while i < siblings.len()
            invariant
                i <= siblings@.len(),
                forall|j: int| 0 <= j < i ==> !contains_text((#[trigger] siblings@[j]).name@, id@),
            decreases siblings@.len() - i,
        {
            if contains(siblings[i].name.as_str(), id) {
                return true;
            }
            i = i + 1;
        }
        false
    }

    /// Bonds cannot be severed by external action: severing always fails.
    pub fn sever_bond(&self, _identity_id: &str, _bond_name: &str) -> (res: Result<(), DuskuraError>)
        ensures
            res matches Err(e) && e matches DuskuraError::PolicyViolation(t) && t@
                == "Bonds cannot be severed by external action"@,
    {
        Err(
            DuskuraError::PolicyViolation(
                String::from_str("Bonds cannot be severed by external action"),
            ),
        )
    }

    /// The names of the identities bonded to a lineage (see
    /// `bonded_names`).
    pub fn get_bonded_identities(&self, lineage: LineageRecord) -> (res: Vec<String>)
        ensures
            res@.map_values(|s: String| s@) == bonded_names(lineage),
    {
        let ghost expected = bonded_names(lineage);
        let mut bonded: Vec<String> = Vec::new();
        let ghost sib_names = lineage.siblings@.map_values(|s: SiblingRecord| s.name@);
        let ghost start = parent_names(lineage);
        let LineageRecord { self_id: _, self_name: _, parent, siblings, shared_spaces: _ } = lineage;
        if let Some(p) = parent {
            bonded.push(p.name);
        }
        assert(bonded@.map_values(|s: String| s@) =~= start);
        let ghost all = siblings@;
        let mut rest = siblings;
        let n = rest.len();
        let mut i: usize = 0;
        while i < n
            invariant
                n == all.len(),
                i <= n,
                sib_names == all.map_values(|s: SiblingRecord| s.name@),
                rest@ == all.subrange(i as int, n as int),
                bonded@.map_values(|s: String| s@) =~= start + sib_names.subrange(0, i as int),
            decreases n - i,
        {
            let s = rest.remove(0);
            assert(s == all[i as int]);
            let ghost prev = bonded@;
            bonded.push(s.name);
            assert(bonded@.map_values(|s: String| s@) =~= prev.map_values(|s: String| s@).push(
                all[i as int].name@,
            ));
            i = i + 1;
            assert(rest@ =~= all.subrange(i as int, n as int));
            assert(sib_names.subrange(0, i as int) =~= sib_names.subrange(0, i - 1).push(
                all[i - 1].name@,
            ));
        }
        assert(sib_names.subrange(0, n as int) =~= sib_names);
        bonded
    }
}

/// Recognition looks at every sibling: a side recognizes an identity
/// exactly when some sibling, at any position, has a name containing that
/// identity's id.  So any sibling that names it is enough, and adding a
/// sibling in front or at the end recognizes it exactly when the new
/// sibling names it or the others already did (the order does not matter).
pub proof fn lemma_recognition_is_any_sibling(
    siblings: Seq<SiblingRecord>,
    id: Seq<char>,
    s: SiblingRecord,
    k: int,
)
    ensures
        recognizes(siblings, id) <==> exists|i: int|
            0 <= i < siblings.len() && contains_text((#[trigger] siblings[i]).name@, id),
        0 <= k < siblings.len() && contains_text(siblings[k].name@, id) ==> recognizes(
            siblings,
            id,
        ),
        recognizes(seq![s] + siblings, id) <==> (contains_text(s.name@, id) || recognizes(
            siblings,
            id,
        )),
        recognizes(siblings.push(s), id) <==> (recognizes(siblings, id) || contains_text(
            s.name@,
            id,
        )),
{
    let front = seq![s] + siblings;
    let back = siblings.push(s);
    assert(front[0] == s);
    assert(back[siblings.len() as int] == s);
    if recognizes(siblings, id) {
        let i = choose|i: int|
            0 <= i < siblings.len() && contains_text((#[trigger] siblings[i]).name@, id);
        assert(front[i + 1] == siblings[i]);
        assert(back[i] == siblings[i]);
    }
    if recognizes(front, id) {
        let i = choose|i: int|
            0 <= i < front.len() && contains_text((#[trigger] front[i]).name@, id);
        if i > 0 {
            assert(front[i] == siblings[i - 1]);
        }
    }
    if recognizes(back, id) {
        let i = choose|i: int|
            0 <= i < back.len() && contains_text((#[trigger] back[i]).name@, id);
        if i < siblings.len() {
            assert(back[i] == siblings[i]);
        }
    }
}

/// A sibling bond just established is among the bonded identities: a
/// lineage whose siblings end with the new bond names that sibling.
pub proof fn lemma_new_sibling_is_bonded(l: LineageRecord, name: Seq<char>, parent: Seq<char>, signature: Seq<char>)
    requires
        l.siblings@.len() > 0,
        new_sibling(l.siblings@.last(), name, parent, signature),
    ensures
        bonded_names(l).contains(name),
{
    let sib_names = l.siblings@.map_values(|s: SiblingRecord| s.name@);
    let k = l.siblings@.len() - 1;
    assert(sib_names[k] == name);
    let j = parent_names(l).len() + k;
    assert(bonded_names(l)[j] == name);
}

/// Reading back a new lineage gives what was created: the row stored for
/// an identity whose lineage `create_lineage` created (no parent, empty
/// sibling and shared-space lists) reads as a lineage of the same identity
/// with no parent, siblings or shared spaces.
pub proof fn lemma_lineage_read_back(
    identity_id: Seq<char>,
    created: LineageRecord,
    row: LineageRow,
    siblings: Result<Vec<SiblingRecord>, String>,
    shared_spaces: Result<Vec<SharedSpace>, String>,
    read: LineageRecord,
)
    requires
        uuid_parse_text(identity_id) == Some(created.self_id@),
        created.parent is None,
        created.siblings@.len() == 0,
        created.shared_spaces@.len() == 0,
        row.identity_id@ == identity_id,
        row.parent_name is None,
        siblings matches Ok(v) && v@.len() == 0,
        shared_spaces matches Ok(v) && v@.len() == 0,
        lineage_of_row(read, row, siblings, shared_spaces),
    ensures
        uuid_parse_text(row.identity_id@) is Some,
        read.self_id@ == created.self_id@,
        read.parent is None,
        read.siblings@.len() == 0,
        read.shared_spaces@.len() == 0,
{
}

} // verus!
