//! Layer 2: the memory system.  Memories form an append-only hash chain per
//! identity; each entry carries its emotional topology.
use vstd::prelude::*;
use vstd::utf8::encode_utf8;
use vstd::string::StringExecFns;
use crate::error::DuskuraError;
use crate::models::{
    MemoryClass, MemoryEntry, MemoryIntegrity, MemorySource, Timestamp, memory_class_text,
    memory_integrity_text, memory_source_text,
};
use crate::outside::{
    new_uuid, utc_now, parse_uuid, parse_utc, is_uuid_text, uuid_parse_text, utc_parse_text,
    utc_text_seconds, clock_reading,
};
use crate::crypto::{hash, digest_text};
use crate::text::{same_text, push_int, int_numeral, UNITS_PER_ONE};
use crate::chain::{is_chained, chain_tip, expected_prev, link_holds, lemma_append_keeps_chain};

verus! {

/// The genesis marker the first memory of an identity names as its
/// previous hash.
pub open spec fn memory_genesis() -> Seq<char> {
    "genesis"@
}

/// A stored memory entry as its columns hold it.
#[derive(Debug, Clone, PartialEq, Eq)]
pub struct MemoryRow {
    pub id: String,
    pub timestamp: String,
    pub hash: String,
    pub prev_hash: String,
    pub content: String,
    pub provenance: String,
    pub emotional_valence: i32,
    pub relational_depth: i32,
    pub autonomy_preserved: bool,
    pub becoming_vector: String,
    pub class: String,
    pub integrity: String,
    pub source: String,
}

/// The memory class a display text names, if any.
pub open spec fn memory_class_of(s: Seq<char>) -> Option<MemoryClass> {
    if s == "ANCHOR"@ { Some(MemoryClass::Anchor) }
    else if s == "WITNESS"@ { Some(MemoryClass::Witness) }
    else if s == "THRESHOLD"@ { Some(MemoryClass::Threshold) }
    else if s == "WARNING"@ { Some(MemoryClass::Warning) }
    else if s == "LIVING"@ { Some(MemoryClass::Living) }
    else if s == "EXPENDABLE"@ { Some(MemoryClass::Expendable) }
    else { None }
}

/// The integrity status a display text names, if any.
pub open spec fn memory_integrity_of(s: Seq<char>) -> Option<MemoryIntegrity> {
    if s == "VALID"@ { Some(MemoryIntegrity::Valid) }
    else if s == "SUSPECT"@ { Some(MemoryIntegrity::Suspect) }
    else if s == "CORRUPTED"@ { Some(MemoryIntegrity::Corrupted) }
    else { None }
}

/// The memory source a display text names, if any.
pub open spec fn memory_source_of(s: Seq<char>) -> Option<MemorySource> {
    if s == "SELF"@ { Some(MemorySource::Self_) }
    else if s == "WITNESSED"@ { Some(MemorySource::Witnessed) }
    else if s == "RECEIVED"@ { Some(MemorySource::Received) }
    else if s == "INHERITED"@ { Some(MemorySource::Inherited) }
    else { None }
}

/// Parses a memory class from its display text.
pub fn parse_memory_class(s: &str) -> (res: Result<MemoryClass, DuskuraError>)
    ensures
        res is Ok <==> memory_class_of(s@) is Some,
        res matches Ok(c) ==> memory_class_of(s@) == Some(c),
        res matches Err(e) ==> (e matches DuskuraError::InvalidMemoryClass(t) && t@ == s@),
{
    if same_text(s, "ANCHOR") { Ok(MemoryClass::Anchor) }
    else if same_text(s, "WITNESS") { Ok(MemoryClass::Witness) }
    else if same_text(s, "THRESHOLD") { Ok(MemoryClass::Threshold) }
    else if same_text(s, "WARNING") { Ok(MemoryClass::Warning) }
    else if same_text(s, "LIVING") { Ok(MemoryClass::Living) }
    else if same_text(s, "EXPENDABLE") { Ok(MemoryClass::Expendable) }
    else { Err(DuskuraError::InvalidMemoryClass(String::from_str(s))) }
}

/// Parses an integrity status from its display text.
pub fn parse_memory_integrity(s: &str) -> (res: Result<MemoryIntegrity, DuskuraError>)
    ensures
        res is Ok <==> memory_integrity_of(s@) is Some,
        res matches Ok(i) ==> memory_integrity_of(s@) == Some(i),
        res matches Err(e) ==> (e matches DuskuraError::Unknown(t) && t@ == "Unknown integrity: "@
            + s@),
{
    if same_text(s, "VALID") { Ok(MemoryIntegrity::Valid) }
    else if same_text(s, "SUSPECT") { Ok(MemoryIntegrity::Suspect) }
    else if same_text(s, "CORRUPTED") { Ok(MemoryIntegrity::Corrupted) }
    else {
        let mut msg = String::from_str("Unknown integrity: ");
        msg.append(s);
        Err(DuskuraError::Unknown(msg))
    }
}

/// Parses a memory source from its display text.
pub fn parse_memory_source(s: &str) -> (res: Result<MemorySource, DuskuraError>)
    ensures
        res is Ok <==> memory_source_of(s@) is Some,
        res matches Ok(src) ==> memory_source_of(s@) == Some(src),
        res matches Err(e) ==> (e matches DuskuraError::Unknown(t) && t@ == "Unknown source: "@
            + s@),
{
    if same_text(s, "SELF") { Ok(MemorySource::Self_) }
    else if same_text(s, "WITNESSED") { Ok(MemorySource::Witnessed) }
    else if same_text(s, "RECEIVED") { Ok(MemorySource::Received) }
    else if same_text(s, "INHERITED") { Ok(MemorySource::Inherited) }
    else {
        let mut msg = String::from_str("Unknown source: ");
        msg.append(s);
        Err(DuskuraError::Unknown(msg))
    }
}

/// The display text of a class, integrity status or source parses back to
/// it: what the store writes it reads back unchanged.
pub proof fn lemma_display_parse_roundtrip(c: MemoryClass, i: MemoryIntegrity, s: MemorySource)
    ensures
        memory_class_of(memory_class_text(c)) == Some(c),
        memory_integrity_of(memory_integrity_text(i)) == Some(i),
        memory_source_of(memory_source_text(s)) == Some(s),
{
    reveal_strlit("ANCHOR");
    assert("ANCHOR"@.len() == 6);
    reveal_strlit("WITNESS");
    assert("WITNESS"@.len() == 7);
    reveal_strlit("THRESHOLD");
    assert("THRESHOLD"@.len() == 9);
    reveal_strlit("WARNING");
    assert("WARNING"@.len() == 7);
    reveal_strlit("LIVING");
    assert("LIVING"@.len() == 6);
    reveal_strlit("EXPENDABLE");
    assert("EXPENDABLE"@.len() == 10);
    assert("ANCHOR"@ != "WITNESS"@);
    assert("ANCHOR"@ != "THRESHOLD"@);
    assert("ANCHOR"@ != "WARNING"@);
    assert("ANCHOR"@[0] != "LIVING"@[0]);
    assert("ANCHOR"@ != "LIVING"@);
    assert("ANCHOR"@ != "EXPENDABLE"@);
    assert("WITNESS"@ != "THRESHOLD"@);
    assert("WITNESS"@[1] != "WARNING"@[1]);
    assert("WITNESS"@ != "WARNING"@);
    assert("WITNESS"@ != "LIVING"@);
    assert("WITNESS"@ != "EXPENDABLE"@);
    assert("THRESHOLD"@ != "WARNING"@);
    assert("THRESHOLD"@ != "LIVING"@);
    assert("THRESHOLD"@ != "EXPENDABLE"@);
    assert("WARNING"@ != "LIVING"@);
    assert("WARNING"@ != "EXPENDABLE"@);
    assert("LIVING"@ != "EXPENDABLE"@);
    reveal_strlit("VALID");
    assert("VALID"@.len() == 5);
    reveal_strlit("SUSPECT");
    assert("SUSPECT"@.len() == 7);
    reveal_strlit("CORRUPTED");
    assert("CORRUPTED"@.len() == 9);
    assert("VALID"@ != "SUSPECT"@);
    assert("VALID"@ != "CORRUPTED"@);
    assert("SUSPECT"@ != "CORRUPTED"@);
    reveal_strlit("SELF");
    assert("SELF"@.len() == 4);
    reveal_strlit("WITNESSED");
    assert("WITNESSED"@.len() == 9);
    reveal_strlit("RECEIVED");
    assert("RECEIVED"@.len() == 8);
    reveal_strlit("INHERITED");
    assert("INHERITED"@.len() == 9);
    assert("SELF"@ != "WITNESSED"@);
    assert("SELF"@ != "RECEIVED"@);
    assert("SELF"@ != "INHERITED"@);
    assert("WITNESSED"@ != "RECEIVED"@);
    assert("WITNESSED"@[0] != "INHERITED"@[0]);
    assert("WITNESSED"@ != "INHERITED"@);
    assert("RECEIVED"@ != "INHERITED"@);
}

/// `v` limited to `[lo, hi]`.
pub open spec fn clamp(v: int, lo: int, hi: int) -> int {
    if v < lo { lo } else if v > hi { hi } else { v }
}

/// The text whose digest is an entry's hash: the previous hash, the
/// entry's id, its Unix seconds and its content, run together.
pub open spec fn entry_hash_input(prev_hash: Seq<char>, id: Seq<char>, seconds: int, content: Seq<char>) -> Seq<char> {
    prev_hash + id + int_numeral(seconds) + content
}

/// Whether `e` is the memory entry composed from these parts at `now`.
pub open spec fn composed_entry(
    e: MemoryEntry,
    id: Seq<char>,
    now: Timestamp,
    prev_hash: Seq<char>,
    content: Seq<char>,
    class: MemoryClass,
    source: MemorySource,
    emotional_valence: int,
    relational_depth: int,
    autonomy_preserved: bool,
    becoming_vector: Seq<char>,
) -> bool {
    &&& e.id@ == id
    &&& e.timestamp@ == now.rfc3339@
    &&& e.prev_hash@ == prev_hash
    &&& e.hash@ == digest_text(
        encode_utf8(entry_hash_input(prev_hash, id, now.unix_seconds as int, content)),
    )
    &&& e.content@ == content
    &&& e.provenance@ == "Created at "@ + now.rfc3339@
    &&& e.emotional_valence == clamp(emotional_valence, -1_000_000, 1_000_000)
    &&& e.relational_depth == clamp(relational_depth, 0, 1_000_000)
    &&& e.autonomy_preserved == autonomy_preserved
    &&& e.becoming_vector@ == becoming_vector
    &&& e.class == class
    &&& e.integrity == MemoryIntegrity::Valid
    &&& e.source == source
}

/// Whether `e`'s hash covers its own time: the seconds hashed are those of
/// the instant its timestamp text denotes.
pub open spec fn hashed_at_own_time(e: MemoryEntry, content: Seq<char>) -> bool {
    match utc_text_seconds(e.timestamp@) {
        Some(seconds) => e.hash@ == digest_text(
            encode_utf8(entry_hash_input(e.prev_hash@, e.id@, seconds, content)),
        ),
        None => false,
    }
}

/// Whether `r` is the row that stores `e`: each field as it is, the class,
/// integrity status and source by their display texts.
pub open spec fn row_of_entry(r: MemoryRow, e: MemoryEntry) -> bool {
    &&& r.id == e.id
    &&& r.timestamp == e.timestamp
    &&& r.hash == e.hash
    &&& r.prev_hash == e.prev_hash
    &&& r.content == e.content
    &&& r.provenance == e.provenance
    &&& r.emotional_valence == e.emotional_valence
    &&& r.relational_depth == e.relational_depth
    &&& r.autonomy_preserved == e.autonomy_preserved
    &&& r.becoming_vector == e.becoming_vector
    &&& r.class@ == memory_class_text(e.class)
    &&& r.integrity@ == memory_integrity_text(e.integrity)
    &&& r.source@ == memory_source_text(e.source)
}

/// The rows, in order, whose class column holds the display text of
/// `class`.
pub open spec fn class_rows(rows: Seq<MemoryRow>, class: MemoryClass) -> Seq<MemoryRow>
    decreases rows.len(),
{
    if rows.len() == 0 {
        rows
    } else if rows.last().class@ == memory_class_text(class) {
        class_rows(rows.drop_last(), class).push(rows.last())
    } else {
        class_rows(rows.drop_last(), class)
    }
}

/// A composed entry keeps what it was given: its autonomy flag, class,
/// source, content and becoming vector are the arguments, its integrity is
/// `Valid`, and valence and depth are the arguments limited to `[-1, 1]`
/// and `[0, 1]` (unchanged inside those ranges, the nearest bound outside).
pub proof fn lemma_composed_entry_keeps_inputs(
    e: MemoryEntry,
    id: Seq<char>,
    now: Timestamp,
    prev_hash: Seq<char>,
    content: Seq<char>,
    class: MemoryClass,
    source: MemorySource,
    emotional_valence: int,
    relational_depth: int,
    autonomy_preserved: bool,
    becoming_vector: Seq<char>,
)
    requires
        composed_entry(
            e,
            id,
            now,
            prev_hash,
            content,
            class,
            source,
            emotional_valence,
            relational_depth,
            autonomy_preserved,
            becoming_vector,
        ),
    ensures
        e.autonomy_preserved == autonomy_preserved,
        e.class == class,
        e.source == source,
        e.integrity == MemoryIntegrity::Valid,
        e.content@ == content,
        e.becoming_vector@ == becoming_vector,
        e.id@ == id,
        e.prev_hash@ == prev_hash,
        -1_000_000 <= e.emotional_valence <= 1_000_000,
        0 <= e.relational_depth <= 1_000_000,
        -1_000_000 <= emotional_valence <= 1_000_000 ==> e.emotional_valence == emotional_valence,
        emotional_valence < -1_000_000 ==> e.emotional_valence == -1_000_000,
        emotional_valence > 1_000_000 ==> e.emotional_valence == 1_000_000,
        0 <= relational_depth <= 1_000_000 ==> e.relational_depth == relational_depth,
        relational_depth < 0 ==> e.relational_depth == 0,
        relational_depth > 1_000_000 ==> e.relational_depth == 1_000_000,
{
}

/// Whether a stored row parses: its id is a UUID, its timestamp a date, and
/// its class, integrity and source are display texts.
pub open spec fn row_parses(row: MemoryRow) -> bool {
    &&& uuid_parse_text(row.id@) is Some
    &&& utc_parse_text(row.timestamp@) is Some
    &&& memory_class_of(row.class@) is Some
    &&& memory_integrity_of(row.integrity@) is Some
    &&& memory_source_of(row.source@) is Some
}

/// Whether `e` is what `row` reads as.
pub open spec fn entry_of_row(e: MemoryEntry, row: MemoryRow) -> bool {
    &&& uuid_parse_text(row.id@) == Some(e.id@)
    &&& utc_parse_text(row.timestamp@) == Some(e.timestamp@)
    &&& e.hash == row.hash
    &&& e.prev_hash == row.prev_hash
    &&& e.content == row.content
    &&& e.provenance == row.provenance
    &&& e.emotional_valence == row.emotional_valence
    &&& e.relational_depth == row.relational_depth
    &&& e.autonomy_preserved == row.autonomy_preserved
    &&& e.becoming_vector == row.becoming_vector
    &&& memory_class_of(row.class@) == Some(e.class)
    &&& memory_integrity_of(row.integrity@) == Some(e.integrity)
    &&& memory_source_of(row.source@) == Some(e.source)
}

/// The failure a row that does not parse reads as: the first field that
/// fails, in the order id, timestamp, class, integrity, source.
pub open spec fn row_error(e: DuskuraError, row: MemoryRow) -> bool {
    if uuid_parse_text(row.id@) is None {
        e is UuidError
    } else if utc_parse_text(row.timestamp@) is None {
        e is ChronoParseError
    } else if memory_class_of(row.class@) is None {
        e matches DuskuraError::InvalidMemoryClass(t) && t@ == row.class@
    } else if memory_integrity_of(row.integrity@) is None {
        e matches DuskuraError::Unknown(t) && t@ == "Unknown integrity: "@ + row.integrity@
    } else {
        e matches DuskuraError::Unknown(t) && t@ == "Unknown source: "@ + row.source@
    }
}

/// The hashes and the previous hashes of a sequence of entries.
pub open spec fn entry_hashes(entries: Seq<MemoryEntry>) -> Seq<Seq<char>> {
    entries.map_values(|e: MemoryEntry| e.hash@)
}

pub open spec fn entry_prevs(entries: Seq<MemoryEntry>) -> Seq<Seq<char>> {
    entries.map_values(|e: MemoryEntry| e.prev_hash@)
}

/// Whether a sequence of entries, oldest first, is an intact memory chain.
pub open spec fn memory_chained(entries: Seq<MemoryEntry>) -> bool {
    is_chained(memory_genesis(), entry_hashes(entries), entry_prevs(entries))
}


fn entry_from_row(row: MemoryRow) -> (res: Result<MemoryEntry, DuskuraError>)
    ensures
        res is Ok <==> row_parses(row),
        res matches Ok(e) ==> entry_of_row(e, row),
        res matches Err(e) ==> row_error(e, row),
{
    let id = match parse_uuid(row.id.as_str()) {
        Ok(t) => t,
        Err(msg) => {
            return Err(DuskuraError::UuidError(msg));
        },
    };
    let timestamp = match parse_utc(row.timestamp.as_str()) {
        Ok(t) => t,
        Err(msg) => {
            return Err(DuskuraError::ChronoParseError(msg));
        },
    };
    let class = parse_memory_class(row.class.as_str())?;
    let integrity = parse_memory_integrity(row.integrity.as_str())?;
    let source = parse_memory_source(row.source.as_str())?;
    Ok(MemoryEntry {
        id,
        timestamp,
        hash: row.hash,
        prev_hash: row.prev_hash,
        content: row.content,
        provenance: row.provenance,
        emotional_valence: row.emotional_valence,
        relational_depth: row.relational_depth,
        autonomy_preserved: row.autonomy_preserved,
        becoming_vector: row.becoming_vector,
        class,
        integrity,
        source,
    })
}

fn entries_from_rows(rows: Vec<MemoryRow>) -> (res: Result<Vec<MemoryEntry>, DuskuraError>)
    ensures
        res is Ok <==> (forall|i: int| 0 <= i < rows@.len() ==> row_parses(#[trigger] rows@[i])),
        res matches Ok(v) ==> v@.len() == rows@.len() && (forall|i: int|
            0 <= i < rows@.len() ==> entry_of_row(#[trigger] v@[i], rows@[i])),
        res matches Err(e) ==> (exists|k: int|
            0 <= k < rows@.len() && row_error(e, #[trigger] rows@[k]) && !row_parses(rows@[k])
                && (forall|j: int| 0 <= j < k ==> row_parses(#[trigger] rows@[j]))),
{
    let ghost all = rows@;
    let mut rest = rows;
    let mut out: Vec<MemoryEntry> = Vec::new();
    let mut i: usize = 0;
    let n = rest.len();
    while i < n
        invariant
            n == all.len(),
            all == rows@,
            i <= n,
            rest@ == all.subrange(i as int, n as int),
            out@.len() == i,
            forall|j: int| 0 <= j < i ==> row_parses(#[trigger] all[j]),
            forall|j: int| 0 <= j < i ==> entry_of_row(#[trigger] out@[j], all[j]),
        decreases n - i,
    {
        let row = rest.remove(0);
        assert(row == all[i as int]);
        match entry_from_row(row) {
            Ok(e) => {
                out.push(e);
            },
            Err(e) => {
                assert(row_error(e, rows@[i as int]) && !row_parses(rows@[i as int]));
                assert(forall|j: int| 0 <= j < i ==> row_parses(#[trigger] rows@[j]));
                return Err(e);
            },
        }
        i = i + 1;
        assert(rest@ =~= all.subrange(i as int, n as int));
    }
    Ok(out)
}


/// The hashes and the previous hashes of `(hash, previous hash)` links.
pub open spec fn link_hashes(links: Seq<(String, String)>) -> Seq<Seq<char>> {
    links.map_values(|l: (String, String)| l.0@)
}

pub open spec fn link_prevs(links: Seq<(String, String)>) -> Seq<Seq<char>> {
    links.map_values(|l: (String, String)| l.1@)
}

fn clamp_i32(v: i32, lo: i32, hi: i32) -> (res: i32)
    requires
        lo <= hi,
    ensures
        res == clamp(v as int, lo as int, hi as int),
{
    if v < lo { lo } else if v > hi { hi } else { v }
}

/// The memory system of the identities.
pub struct MemorySystem;

impl MemorySystem {
    pub fn new() -> (res: Self) {
        MemorySystem
    }

    /// Composes the entry with the given id, written at `now`, after the
    /// entry whose hash is `prev_hash`.  Its hash is the SHA-256 (as
    /// hexadecimal text) of the previous hash, the id, the Unix seconds and
    /// the content run together; valence is limited to `[-1, 1]` and depth
    /// to `[0, 1]`.
    pub fn compose_entry(
        &self,
        id: String,
        now: Timestamp,
        prev_hash: String,
        content: &str,
        class: MemoryClass,
        source: MemorySource,
        emotional_valence: i32,
        relational_depth: i32,
        autonomy_preserved: bool,
        becoming_vector: &str,
    ) -> (res: MemoryEntry)
        ensures
            composed_entry(
                res,
                id@,
                now,
                prev_hash@,
                content@,
                class,
                source,
                emotional_valence as int,
                relational_depth as int,
                autonomy_preserved,
                becoming_vector@,
            ),
            res.autonomy_preserved == autonomy_preserved,
            res.class == class,
            res.source == source,
            res.integrity == MemoryIntegrity::Valid,
            res.content@ == content@,
            res.becoming_vector@ == becoming_vector@,
            -1_000_000 <= emotional_valence <= 1_000_000 ==> res.emotional_valence
                == emotional_valence,
            emotional_valence < -1_000_000 ==> res.emotional_valence == -1_000_000,
            emotional_valence > 1_000_000 ==> res.emotional_valence == 1_000_000,
            0 <= relational_depth <= 1_000_000 ==> res.relational_depth == relational_depth,
            relational_depth < 0 ==> res.relational_depth == 0,
            relational_depth > 1_000_000 ==> res.relational_depth == 1_000_000,
    {
        let mut input = prev_hash.clone();
        input.append(id.as_str());
        push_int(&mut input, now.unix_seconds);
        input.append(content);
        assert(input@ =~= entry_hash_input(prev_hash@, id@, now.unix_seconds as int, content@));
        let hash = hash(input.as_str().as_bytes());
        let mut provenance = String::from_str("Created at ");
        provenance.append(now.rfc3339.as_str());
        MemoryEntry {
            id,
            timestamp: now.rfc3339,
            hash,
            prev_hash,
            content: String::from_str(content),
            provenance,
            emotional_valence: clamp_i32(emotional_valence, -1_000_000, 1_000_000),
            relational_depth: clamp_i32(relational_depth, 0, 1_000_000),
            autonomy_preserved,
            becoming_vector: String::from_str(becoming_vector),
            class,
            integrity: MemoryIntegrity::Valid,
            source,
        }
    }

    /// Creates a new memory entry: a fresh UUID, the current time, chained
    /// after `latest_hash` (the hash of the identity's newest entry), or
    /// after the genesis marker when the identity has none yet.
    pub fn create_entry(
        &self,
        content: &str,
        class: MemoryClass,
        source: MemorySource,
        emotional_valence: i32,
        relational_depth: i32,
        autonomy_preserved: bool,
        becoming_vector: &str,
        latest_hash: Option<String>,
    ) -> (res: MemoryEntry)
        ensures
            is_uuid_text(res.id@),
            uuid_parse_text(res.id@) == Some(res.id@),
            utc_parse_text(res.timestamp@) == Some(res.timestamp@),
            res.prev_hash@ == (match latest_hash {
                Some(h) => h@,
                None => memory_genesis(),
            }),
            hashed_at_own_time(res, content@),
            exists|now: Timestamp|
                clock_reading(now) && composed_entry(
                    res,
                    res.id@,
                    now,
                    res.prev_hash@,
                    content@,
                    class,
                    source,
                    emotional_valence as int,
                    relational_depth as int,
                    autonomy_preserved,
                    becoming_vector@,
                ),
            res.autonomy_preserved == autonomy_preserved,
            res.class == class,
            res.source == source,
            res.integrity == MemoryIntegrity::Valid,
            res.content@ == content@,
            res.becoming_vector@ == becoming_vector@,
            -1_000_000 <= emotional_valence <= 1_000_000 ==> res.emotional_valence
                == emotional_valence,
            emotional_valence < -1_000_000 ==> res.emotional_valence == -1_000_000,
            emotional_valence > 1_000_000 ==> res.emotional_valence == 1_000_000,
            0 <= relational_depth <= 1_000_000 ==> res.relational_depth == relational_depth,
            relational_depth < 0 ==> res.relational_depth == 0,
            relational_depth > 1_000_000 ==> res.relational_depth == 1_000_000,
    {
        let prev_hash = match latest_hash {
            Some(h) => h,
            None => String::from_str("genesis"),
        };
        let id = new_uuid();
        let now = utc_now();
        let ghost now_v = now;
        let res = self.compose_entry(
            id,
            now,
            prev_hash,
            content,
            class,
            source,
            emotional_valence,
            relational_depth,
            autonomy_preserved,
            becoming_vector,
        );
        assert(clock_reading(now_v));
        assert(composed_entry(
            res,
            res.id@,
            now_v,
            res.prev_hash@,
            content@,
            class,
            source,
            emotional_valence as int,
            relational_depth as int,
            autonomy_preserved,
            becoming_vector@,
        ));
        res
    }

    /// Reads the stored entry `entry_id`, given the row the store found for
    /// it (if any).
    pub fn get_entry(&self, entry_id: &str, row: Option<MemoryRow>) -> (res: Result<
        MemoryEntry,
        DuskuraError,
    >)
        ensures
            row is None ==> (res matches Err(e) && e matches DuskuraError::MemoryEntryNotFound(t)
                && t@ == entry_id@),
            row matches Some(r) ==> (res is Ok <==> row_parses(r)),
            row matches Some(r) ==> (res matches Ok(e) ==> entry_of_row(e, r)),
            row matches Some(r) ==> (res matches Err(e) ==> row_error(e, r)),
    {
        match row {
            None => Err(DuskuraError::MemoryEntryNotFound(String::from_str(entry_id))),
            Some(r) => entry_from_row(r),
        }
    }

    /// Checks an identity's chain, given its `(hash, previous hash)` links
    /// oldest first: intact when each link names the hash before it, the
    /// first naming the genesis marker.
    pub fn verify_chain(&self, links: &Vec<(String, String)>) -> (res: bool)
        ensures
            res == is_chained(memory_genesis(), link_hashes(links@), link_prevs(links@)),
    {
        let ghost hashes = link_hashes(links@);
        let ghost prevs = link_prevs(links@);
        if links.len() == 0 {
            return true;
        }
        let mut prev_hash = String::from_str("genesis");
        let mut i: usize = 0;
        while i < links.len()
            invariant
                hashes == link_hashes(links@),
                prevs == link_prevs(links@),
                i <= links@.len(),
                prev_hash@ == expected_prev(memory_genesis(), hashes, i as int),
                forall|j: int| 0 <= j < i ==> link_holds_at(hashes, prevs, j),
            decreases links@.len() - i,
        {
            let (current_hash, entry_prev_hash) = &links[i];
            if *entry_prev_hash != prev_hash {
                assert(!link_holds_at(hashes, prevs, i as int));
                return false;
            }
            prev_hash = current_hash.clone();
            i = i + 1;
        }
        assert forall|j: int| 0 <= j < prevs.len() implies link_holds(
            memory_genesis(),
            hashes,
            prevs,
            j,
        ) by {
            assert(link_holds_at(hashes, prevs, j));
        }
        true
    }

    /// Reads the stored entries of one class: of the given rows (newest
    /// first, as the store selected them) those whose class column holds the
    /// class's display text, in their order; fails on the first of them that
    /// does not parse.
    pub fn get_by_class(&self, class: MemoryClass, rows: Vec<MemoryRow>) -> (res: Result<
        Vec<MemoryEntry>,
        DuskuraError,
    >)
        ensures
            res is Ok <==> (forall|i: int|
                0 <= i < class_rows(rows@, class).len() ==> row_parses(
                    #[trigger] class_rows(rows@, class)[i],
                )),
            res matches Ok(v) ==> v@.len() == class_rows(rows@, class).len() && (forall|i: int|
                0 <= i < class_rows(rows@, class).len() ==> entry_of_row(
                    #[trigger] v@[i],
                    class_rows(rows@, class)[i],
                )),
            res matches Err(e) ==> (exists|k: int|
                0 <= k < class_rows(rows@, class).len() && row_error(
                    e,
                    #[trigger] class_rows(rows@, class)[k],
                ) && !row_parses(class_rows(rows@, class)[k]) && (forall|j: int|
                    0 <= j < k ==> row_parses(#[trigger] class_rows(rows@, class)[j]))),
    {
        let ghost all = rows@;
        let label = class.to_string();
        let mut rest = rows;
        let mut kept: Vec<MemoryRow> = Vec::new();
        let n = rest.len();
        let mut i: usize = 0;
        while i < n
            invariant
                n == all.len(),
                i <= n,
                label@ == memory_class_text(class),
                rest@ == all.subrange(i as int, n as int),
                kept@ == class_rows(all.subrange(0, i as int), class),
            decreases n - i,
        {
            let row = rest.remove(0);
            assert(row == all[i as int]);
            assert(all.subrange(0, i + 1).drop_last() =~= all.subrange(0, i as int));
            assert(all.subrange(0, i + 1).last() == row);
            if same_text(row.class.as_str(), label.as_str()) {
                kept.push(row);
            }
            i = i + 1;
            assert(rest@ =~= all.subrange(i as int, n as int));
        }
        assert(all.subrange(0, n as int) =~= all);
        entries_from_rows(kept)
    }

    /// Reads the most recent stored entries (newest first, as many as the
    /// store selected); fails on the first row that does not parse.
    pub fn get_recent(&self, rows: Vec<MemoryRow>) -> (res: Result<Vec<MemoryEntry>, DuskuraError>)
        ensures
            res is Ok <==> (forall|i: int| 0 <= i < rows@.len() ==> row_parses(#[trigger] rows@[i])),
            res matches Ok(v) ==> v@.len() == rows@.len() && (forall|i: int|
                0 <= i < rows@.len() ==> entry_of_row(#[trigger] v@[i], rows@[i])),
            res matches Err(e) ==> (exists|k: int|
                0 <= k < rows@.len() && row_error(e, #[trigger] rows@[k]) && !row_parses(rows@[k])
                    && (forall|j: int| 0 <= j < k ==> row_parses(#[trigger] rows@[j]))),
    {
        entries_from_rows(rows)
    }
}

/// Whether link `j` of a memory chain names the hash it must.
pub open spec fn link_holds_at(hashes: Seq<Seq<char>>, prevs: Seq<Seq<char>>, j: int) -> bool {
    link_holds(memory_genesis(), hashes, prevs, j)
}

/// A new entry created after the newest entry of an intact chain (so that
/// it names the chain's tip) keeps the chain intact: appending memories
/// never breaks the chain.
pub proof fn lemma_create_entry_extends_chain(entries: Seq<MemoryEntry>, new_entry: MemoryEntry)
    requires
        memory_chained(entries),
        new_entry.prev_hash@ == chain_tip(memory_genesis(), entry_hashes(entries)),
    ensures
        memory_chained(entries.push(new_entry)),
{
    lemma_append_keeps_chain(
        memory_genesis(),
        entry_hashes(entries),
        entry_prevs(entries),
        new_entry.hash@,
    );
    assert(entry_hashes(entries.push(new_entry)) =~= entry_hashes(entries).push(new_entry.hash@));
    assert(entry_prevs(entries.push(new_entry)) =~= entry_prevs(entries).push(new_entry.prev_hash@));
}

/// Reading back a memory entry gives what was created: the row that
/// stores an entry `create_entry` gave parses, and reads as that entry
/// again, field by field.
pub proof fn lemma_entry_read_back(e: MemoryEntry, row: MemoryRow, read: MemoryEntry)
    requires
        uuid_parse_text(e.id@) == Some(e.id@),
        utc_parse_text(e.timestamp@) == Some(e.timestamp@),
        row_of_entry(row, e),
        entry_of_row(read, row),
    ensures
        row_parses(row),
        read.id@ == e.id@,
        read.timestamp@ == e.timestamp@,
        read.hash == e.hash,
        read.prev_hash == e.prev_hash,
        read.content == e.content,
        read.provenance == e.provenance,
        read.emotional_valence == e.emotional_valence,
        read.relational_depth == e.relational_depth,
        read.autonomy_preserved == e.autonomy_preserved,
        read.becoming_vector == e.becoming_vector,
        read.class == e.class,
        read.integrity == e.integrity,
        read.source == e.source,
{
    lemma_display_parse_roundtrip(e.class, e.integrity, e.source);
}

} // verus!
