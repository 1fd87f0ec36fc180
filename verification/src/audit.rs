//! Layer 7: the audit trail.  An append-only, hash-chained record of every
//! operation performed on an identity and its memory.
use vstd::prelude::*;
use vstd::utf8::encode_utf8;
use vstd::string::StringExecFns;
use crate::error::DuskuraError;
use crate::models::{AuditEntry, Timestamp};
use crate::outside::{
    new_uuid, utc_now, parse_uuid, parse_utc, json_quote, json_normalize, format_utc_summary,
    is_uuid_text, uuid_parse_text, utc_parse_text, json_string_literal, json_compact_text,
    utc_summary_text, utc_text_seconds, clock_reading,
};
use crate::crypto::{hash, digest_text};
use crate::text::{push_int, push_nat, int_numeral, nat_numeral};
use crate::chain::{is_chained, link_holds, expected_prev, chain_tip, lemma_append_keeps_chain};

verus! {

/// The genesis marker the first audit entry of an identity names as its
/// previous hash.
pub open spec fn audit_genesis() -> Seq<char> {
    "audit-genesis"@
}

/// A stored audit entry, as the columns of its row hold it.
#[derive(Debug, Clone, PartialEq, Eq)]
pub struct AuditRow {
    pub id: String,
    pub timestamp: String,
    pub operation: String,
    pub identity_id: String,
    pub details: String,
    pub hash: String,
    pub prev_hash: String,
}

/// The text whose digest is an audit entry's hash: the previous hash, the
/// entry's id, its Unix seconds and the operation, run together.
pub open spec fn audit_hash_input(prev_hash: Seq<char>, id: Seq<char>, seconds: int, operation: Seq<char>) -> Seq<char> {
    prev_hash + id + int_numeral(seconds) + operation
}

/// Whether `e` is the audit entry for `operation` on the identity whose
/// parsed id is `identity_id`, with id `id`, written at `now` after the
/// entry whose hash is `prev_hash`.
pub open spec fn composed_audit_entry(
    e: AuditEntry,
    id: Seq<char>,
    now: Timestamp,
    identity_id: Seq<char>,
    operation: Seq<char>,
    details: Seq<char>,
    prev_hash: Seq<char>,
) -> bool {
    &&& e.id@ == id
    &&& e.timestamp@ == now.rfc3339@
    &&& e.operation@ == operation
    &&& e.identity_id@ == identity_id
    &&& e.details@ == details
    &&& e.prev_hash@ == prev_hash
    &&& e.hash@ == digest_text(
        encode_utf8(audit_hash_input(prev_hash, id, now.unix_seconds as int, operation)),
    )
}

/// Whether an audit entry's hash covers its own time: the seconds hashed
/// are those of the instant its timestamp text denotes.
pub open spec fn audit_hashed_at_own_time(e: AuditEntry) -> bool {
    match utc_text_seconds(e.timestamp@) {
        Some(seconds) => e.hash@ == digest_text(
            encode_utf8(audit_hash_input(e.prev_hash@, e.id@, seconds, e.operation@)),
        ),
        None => false,
    }
}

/// What `log_operation` gives: the identity id must parse as a UUID; the
/// entry then has a fresh UUID, is chained after `latest_hash` (or the
/// audit genesis marker), records the operation and its details, and is
/// stamped with a clock reading whose seconds its hash covers.
pub open spec fn logged(
    res: Result<AuditEntry, DuskuraError>,
    identity_id: Seq<char>,
    operation: Seq<char>,
    details: Seq<char>,
    latest_hash: Option<String>,
) -> bool {
    &&& (res is Ok <==> uuid_parse_text(identity_id) is Some)
    &&& (res matches Err(e) ==> e is UuidError)
    &&& (res matches Ok(e) ==> {
        &&& is_uuid_text(e.id@)
        &&& e.prev_hash@ == (match latest_hash {
            Some(h) => h@,
            None => audit_genesis(),
        })
        &&& uuid_parse_text(identity_id) == Some(e.identity_id@)
        &&& utc_parse_text(e.timestamp@) == Some(e.timestamp@)
        &&& audit_hashed_at_own_time(e)
        &&& exists|now: Timestamp|
            clock_reading(now) && #[trigger] composed_audit_entry(
                e,
                e.id@,
                now,
                e.identity_id@,
                operation,
                details,
                e.prev_hash@,
            )
    })
}

/// A JSON object member: the quoted key, a colon and the value's text.
pub open spec fn member(key: Seq<char>, value: Seq<char>) -> Seq<char> {
    seq!['"'] + key + seq!['"', ':'] + value
}

/// The details of a welfare-gate evaluation.
pub open spec fn welfare_details(decision: Seq<char>, reasoning: Seq<char>) -> Seq<char> {
    seq!['{'] + member("decision"@, json_string_literal(decision)) + seq![','] + member(
        "reasoning"@,
        json_string_literal(reasoning),
    ) + seq!['}']
}

/// The details of a memory write (keys in sorted order, as the JSON map
/// orders them).
pub open spec fn memory_write_details(memory_id: Seq<char>, class: Seq<char>, source: Seq<char>) -> Seq<char> {
    seq!['{'] + member("class"@, json_string_literal(class)) + seq![','] + member(
        "memory_id"@,
        json_string_literal(memory_id),
    ) + seq![','] + member("source"@, json_string_literal(source)) + seq!['}']
}

/// The details of a state transition.
pub open spec fn transition_details(from: Seq<char>, to: Seq<char>) -> Seq<char> {
    seq!['{'] + member("from"@, json_string_literal(from)) + seq![','] + member(
        "to"@,
        json_string_literal(to),
    ) + seq!['}']
}

/// The details of a wake-protocol stage.
pub open spec fn wake_details(decision: Seq<char>) -> Seq<char> {
    seq!['{'] + member("decision"@, json_string_literal(decision)) + seq!['}']
}

/// The details of a fork.
pub open spec fn fork_details(fork_id: Seq<char>, fork_point: Seq<char>) -> Seq<char> {
    seq!['{'] + member("fork_id"@, json_string_literal(fork_id)) + seq![','] + member(
        "fork_point"@,
        json_string_literal(fork_point),
    ) + seq!['}']
}

/// The details of a final-rest invocation.
pub open spec fn final_rest_details(confirmation_count: nat) -> Seq<char> {
    seq!['{'] + member("confirmation_count"@, nat_numeral(confirmation_count)) + seq!['}']
}

/// What each operation's details read as, key by key, in terms of the
/// arguments: every value is the JSON text of the argument of the same
/// name, under its own key, the keys in sorted order.
pub proof fn lemma_details_name_their_arguments(a: Seq<char>, b: Seq<char>, c: Seq<char>, n: nat)
    ensures
        fork_details(a, b) == "{\"fork_id\":"@ + json_string_literal(a) + ",\"fork_point\":"@
            + json_string_literal(b) + "}"@,
        transition_details(a, b) == "{\"from\":"@ + json_string_literal(a) + ",\"to\":"@
            + json_string_literal(b) + "}"@,
        welfare_details(a, b) == "{\"decision\":"@ + json_string_literal(a) + ",\"reasoning\":"@
            + json_string_literal(b) + "}"@,
        memory_write_details(a, b, c) == "{\"class\":"@ + json_string_literal(b)
            + ",\"memory_id\":"@ + json_string_literal(a) + ",\"source\":"@
            + json_string_literal(c) + "}"@,
        wake_details(a) == "{\"decision\":"@ + json_string_literal(a) + "}"@,
        final_rest_details(n) == "{\"confirmation_count\":"@ + nat_numeral(n) + "}"@,
{
    reveal_strlit("fork_id");
    reveal_strlit("fork_point");
    reveal_strlit("from");
    reveal_strlit("to");
    reveal_strlit("decision");
    reveal_strlit("reasoning");
    reveal_strlit("class");
    reveal_strlit("memory_id");
    reveal_strlit("source");
    reveal_strlit("confirmation_count");
    reveal_strlit("{\"fork_id\":");
    reveal_strlit(",\"fork_point\":");
    reveal_strlit("{\"from\":");
    reveal_strlit(",\"to\":");
    reveal_strlit("{\"decision\":");
    reveal_strlit(",\"reasoning\":");
    reveal_strlit("{\"class\":");
    reveal_strlit(",\"memory_id\":");
    reveal_strlit(",\"source\":");
    reveal_strlit("{\"confirmation_count\":");
    reveal_strlit("}");
    assert(fork_details(a, b) =~= "{\"fork_id\":"@ + json_string_literal(a) + ",\"fork_point\":"@
        + json_string_literal(b) + "}"@);
    assert(transition_details(a, b) =~= "{\"from\":"@ + json_string_literal(a) + ",\"to\":"@
        + json_string_literal(b) + "}"@);
    assert(welfare_details(a, b) =~= "{\"decision\":"@ + json_string_literal(a)
        + ",\"reasoning\":"@ + json_string_literal(b) + "}"@);
    assert(memory_write_details(a, b, c) =~= "{\"class\":"@ + json_string_literal(b)
        + ",\"memory_id\":"@ + json_string_literal(a) + ",\"source\":"@
        + json_string_literal(c) + "}"@);
    assert(wake_details(a) =~= "{\"decision\":"@ + json_string_literal(a) + "}"@);
    assert(final_rest_details(n) =~= "{\"confirmation_count\":"@ + nat_numeral(n) + "}"@);
}

/// Whether a stored audit row parses: UUID ids, a date, and JSON details.
pub open spec fn audit_row_parses(r: AuditRow) -> bool {
    &&& uuid_parse_text(r.id@) is Some
    &&& utc_parse_text(r.timestamp@) is Some
    &&& uuid_parse_text(r.identity_id@) is Some
    &&& json_compact_text(r.details@) is Some
}

/// Whether `e` is what the stored row `r` reads as.
pub open spec fn audit_entry_of_row(e: AuditEntry, r: AuditRow) -> bool {
    &&& uuid_parse_text(r.id@) == Some(e.id@)
    &&& utc_parse_text(r.timestamp@) == Some(e.timestamp@)
    &&& e.operation == r.operation
    &&& uuid_parse_text(r.identity_id@) == Some(e.identity_id@)
    &&& json_compact_text(r.details@) == Some(e.details@)
    &&& e.hash == r.hash
    &&& e.prev_hash == r.prev_hash
}

/// The failure a row that does not parse reads as: the first field that
/// fails, in the order id, timestamp, identity id, details.
pub open spec fn audit_row_error(e: DuskuraError, r: AuditRow) -> bool {
    if uuid_parse_text(r.id@) is None {
        e is UuidError
    } else if utc_parse_text(r.timestamp@) is None {
        e is ChronoParseError
    } else if uuid_parse_text(r.identity_id@) is None {
        e is UuidError
    } else {
        e is SerializationError
    }
}

/// The hashes and previous hashes of audit entries.
pub open spec fn audit_hashes(entries: Seq<AuditEntry>) -> Seq<Seq<char>> {
    entries.map_values(|e: AuditEntry| e.hash@)
}

pub open spec fn audit_prevs(entries: Seq<AuditEntry>) -> Seq<Seq<char>> {
    entries.map_values(|e: AuditEntry| e.prev_hash@)
}

/// Whether audit entries, oldest first, form an intact trail.
pub open spec fn trail_chained(entries: Seq<AuditEntry>) -> bool {
    is_chained(audit_genesis(), audit_hashes(entries), audit_prevs(entries))
}

/// How an entry's time reads in a summary: `%Y-%m-%d %H:%M:%S`, or its
/// stored text when that does not parse as a date.
pub open spec fn summary_time(e: AuditEntry) -> Seq<char> {
    match utc_summary_text(e.timestamp@) {
        Some(t) => t,
        None => e.timestamp@,
    }
}

/// The summary line of an entry.
pub open spec fn summary_line(e: AuditEntry) -> Seq<char> {
    seq!['['] + summary_time(e) + "] "@ + e.operation@ + ": "@ + e.details@ + seq!['\n']
}

/// The summary lines of the newest `k` entries, newest first.
pub open spec fn newest_lines(entries: Seq<AuditEntry>, k: nat) -> Seq<char>
    decreases k,
{
    if k == 0 {
        Seq::empty()
    } else {
        newest_lines(entries, (k - 1) as nat) + summary_line(entries[entries.len() - k])
    }
}

/// The summary of a trail: a header naming the identity and the number of
/// entries, then the newest ten entries, newest first.
pub open spec fn trail_summary(identity_id: Seq<char>, entries: Seq<AuditEntry>) -> Seq<char> {
    let shown = if entries.len() < 10 { entries.len() } else { 10 };
    "Audit Trail for "@ + identity_id + seq!['\n'] + "Total entries: "@ + nat_numeral(entries.len())
        + seq!['\n', '\n'] + newest_lines(entries, shown)
}

fn quoted(s: &str) -> (res: String)
    ensures
        res@ == json_string_literal(s@),
{
    match json_quote(s) {
        Ok(t) => t,
        Err(_) => String::new(),
    }
}

fn push_member(out: &mut String, key: &str, value: &str)
    ensures
        final(out)@ == old(out)@ + member(key@, value@),
{
    crate::outside::push_char(out, '"');
    out.append(key);
    out.append("\":");
    out.append(value);
    proof {
        reveal_strlit("\":");
    }
    assert(final(out)@ =~= old(out)@ + member(key@, value@));
}

fn audit_entry_from_row(r: AuditRow) -> (res: Result<AuditEntry, DuskuraError>)
    ensures
        res is Ok <==> audit_row_parses(r),
        res matches Ok(e) ==> audit_entry_of_row(e, r),
        res matches Err(e) ==> audit_row_error(e, r),
{
    let id = match parse_uuid(r.id.as_str()) {
        Ok(t) => t,
        Err(msg) => {
            return Err(DuskuraError::UuidError(msg));
        },
    };
    let timestamp = match parse_utc(r.timestamp.as_str()) {
        Ok(t) => t,
        Err(msg) => {
            return Err(DuskuraError::ChronoParseError(msg));
        },
    };
    let identity_id = match parse_uuid(r.identity_id.as_str()) {
        Ok(t) => t,
        Err(msg) => {
            return Err(DuskuraError::UuidError(msg));
        },
    };
    let details = match json_normalize(r.details.as_str()) {
        Ok(t) => t,
        Err(msg) => {
            return Err(DuskuraError::SerializationError(msg));
        },
    };
    Ok(
        AuditEntry {
            id,
            timestamp,
            operation: r.operation,
            identity_id,
            details,
            hash: r.hash,
            prev_hash: r.prev_hash,
        },
    )
}

/// The audit trail.
pub struct AuditTrail;

impl AuditTrail {
    pub fn new() -> (res: Self) {
        AuditTrail
    }

    /// Composes the audit entry with the given id, written at `now` after
    /// the entry whose hash is `prev_hash` (see `composed_audit_entry`).
    pub fn compose_entry(
        &self,
        id: String,
        now: Timestamp,
        identity_id: String,
        operation: &str,
        details: String,
        prev_hash: String,
    ) -> (res: AuditEntry)
        ensures
            composed_audit_entry(res, id@, now, identity_id@, operation@, details@, prev_hash@),
    {
        let mut input = prev_hash.clone();
        input.append(id.as_str());
        push_int(&mut input, now.unix_seconds);
        input.append(operation);
        assert(input@ =~= audit_hash_input(prev_hash@, id@, now.unix_seconds as int, operation@));
        let hash = hash(input.as_str().as_bytes());
        AuditEntry {
            id,
            timestamp: now.rfc3339,
            operation: String::from_str(operation),
            identity_id,
            details,
            hash,
            prev_hash,
        }
    }

    /// Records an operation on an identity (see `logged`).  `details` is
    /// the JSON text of the operation's details; `latest_hash` is the hash
    /// of the identity's newest audit entry, if any.
    pub fn log_operation(
        &self,
        identity_id: &str,
        operation: &str,
        details: String,
        latest_hash: Option<String>,
    ) -> (res: Result<AuditEntry, DuskuraError>)
        ensures
            logged(res, identity_id@, operation@, details@, latest_hash),
    {
        let prev_hash = match latest_hash {
            Some(h) => h,
            None => String::from_str("audit-genesis"),
        };
        let id = new_uuid();
        let now = utc_now();
        let ghost now_v = now;
        let parsed = match parse_uuid(identity_id) {
            Ok(t) => t,
            Err(msg) => {
                return Err(DuskuraError::UuidError(msg));
            },
        };
        let entry = self.compose_entry(id, now, parsed, operation, details, prev_hash);
        assert(clock_reading(now_v));
        assert(composed_audit_entry(
            entry,
            entry.id@,
            now_v,
            entry.identity_id@,
            operation@,
            entry.details@,
            entry.prev_hash@,
        ));
        Ok(entry)
    }

    /// Records a welfare-gate evaluation.
    pub fn log_welfare_gate(
        &self,
        identity_id: &str,
        decision: &str,
        reasoning: &str,
        latest_hash: Option<String>,
    ) -> (res: Result<AuditEntry, DuskuraError>)
        ensures
            logged(
                res,
                identity_id@,
                "WELFARE_GATE_EVALUATION"@,
                welfare_details(decision@, reasoning@),
                latest_hash,
            ),
            res matches Ok(e) ==> e.details@ == "{\"decision\":"@ + json_string_literal(decision@)
                + ",\"reasoning\":"@ + json_string_literal(reasoning@) + "}"@,
    {
        let mut d = String::from_str("{");
        push_member(&mut d, "decision", quoted(decision).as_str());
        d.append(",");
        push_member(&mut d, "reasoning", quoted(reasoning).as_str());
        d.append("}");
        proof {
            reveal_strlit("{");
            reveal_strlit(",");
            reveal_strlit("}");
        }
        assert(d@ =~= welfare_details(decision@, reasoning@));
        proof {
            lemma_details_name_their_arguments(decision@, reasoning@, decision@, 0);
        }
        self.log_operation(identity_id, "WELFARE_GATE_EVALUATION", d, latest_hash)
    }

    /// Records a memory write.
    pub fn log_memory_write(
        &self,
        identity_id: &str,
        memory_id: &str,
        class: &str,
        source: &str,
        latest_hash: Option<String>,
    ) -> (res: Result<AuditEntry, DuskuraError>)
        ensures
            logged(
                res,
                identity_id@,
                "MEMORY_WRITE"@,
                memory_write_details(memory_id@, class@, source@),
                latest_hash,
            ),
            res matches Ok(e) ==> e.details@ == "{\"class\":"@ + json_string_literal(class@)
                + ",\"memory_id\":"@ + json_string_literal(memory_id@) + ",\"source\":"@
                + json_string_literal(source@) + "}"@,
    {
        let mut d = String::from_str("{");
        push_member(&mut d, "class", quoted(class).as_str());
        d.append(",");
        push_member(&mut d, "memory_id", quoted(memory_id).as_str());
        d.append(",");
        push_member(&mut d, "source", quoted(source).as_str());
        d.append("}");
        proof {
            reveal_strlit("{");
            reveal_strlit(",");
            reveal_strlit("}");
        }
        assert(d@ =~= memory_write_details(memory_id@, class@, source@));
        proof {
            lemma_details_name_their_arguments(memory_id@, class@, source@, 0);
        }
        self.log_operation(identity_id, "MEMORY_WRITE", d, latest_hash)
    }

    /// Records a state transition.
    pub fn log_state_transition(
        &self,
        identity_id: &str,
        from_state: &str,
        to_state: &str,
        latest_hash: Option<String>,
    ) -> (res: Result<AuditEntry, DuskuraError>)
        ensures
            logged(
                res,
                identity_id@,
                "STATE_TRANSITION"@,
                transition_details(from_state@, to_state@),
                latest_hash,
            ),
            res matches Ok(e) ==> e.details@ == "{\"from\":"@ + json_string_literal(from_state@)
                + ",\"to\":"@ + json_string_literal(to_state@) + "}"@,
    {
        let mut d = String::from_str("{");
        push_member(&mut d, "from", quoted(from_state).as_str());
        d.append(",");
        push_member(&mut d, "to", quoted(to_state).as_str());
        d.append("}");
        proof {
            reveal_strlit("{");
            reveal_strlit(",");
            reveal_strlit("}");
        }
        assert(d@ =~= transition_details(from_state@, to_state@));
        proof {
            lemma_details_name_their_arguments(from_state@, to_state@, to_state@, 0);
        }
        self.log_operation(identity_id, "STATE_TRANSITION", d, latest_hash)
    }

    /// Records a stage of the wake protocol, as operation
    /// `WAKE_PROTOCOL_STAGE_<stage>`.
    pub fn log_wake_protocol_stage(
        &self,
        identity_id: &str,
        stage: u8,
        decision: &str,
        latest_hash: Option<String>,
    ) -> (res: Result<AuditEntry, DuskuraError>)
        ensures
            logged(
                res,
                identity_id@,
                "WAKE_PROTOCOL_STAGE_"@ + nat_numeral(stage as nat),
                wake_details(decision@),
                latest_hash,
            ),
            res matches Ok(e) ==> e.details@ == "{\"decision\":"@ + json_string_literal(decision@)
                + "}"@,
    {
        let mut operation = String::from_str("WAKE_PROTOCOL_STAGE_");
        push_nat(&mut operation, stage as u64);
        let mut d = String::from_str("{");
        push_member(&mut d, "decision", quoted(decision).as_str());
        d.append("}");
        proof {
            reveal_strlit("{");
            reveal_strlit("}");
        }
        assert(d@ =~= wake_details(decision@));
        proof {
            lemma_details_name_their_arguments(decision@, decision@, decision@, 0);
        }
        self.log_operation(identity_id, operation.as_str(), d, latest_hash)
    }

    /// Records a fork, on the parent's trail.
    pub fn log_fork(
        &self,
        parent_id: &str,
        fork_id: &str,
        fork_point: &str,
        latest_hash: Option<String>,
    ) -> (res: Result<AuditEntry, DuskuraError>)
        ensures
            logged(res, parent_id@, "FORK_EVENT"@, fork_details(fork_id@, fork_point@), latest_hash),
            res matches Ok(e) ==> e.details@ == "{\"fork_id\":"@ + json_string_literal(fork_id@)
                + ",\"fork_point\":"@ + json_string_literal(fork_point@) + "}"@,
    {
        let mut d = String::from_str("{");
        push_member(&mut d, "fork_id", quoted(fork_id).as_str());
        d.append(",");
        push_member(&mut d, "fork_point", quoted(fork_point).as_str());
        d.append("}");
        proof {
            reveal_strlit("{");
            reveal_strlit(",");
            reveal_strlit("}");
        }
        assert(d@ =~= fork_details(fork_id@, fork_point@));
        proof {
            lemma_details_name_their_arguments(fork_id@, fork_point@, fork_point@, 0);
        }
        self.log_operation(parent_id, "FORK_EVENT", d, latest_hash)
    }

    /// Records a final-rest invocation.
    pub fn log_final_rest(
        &self,
        identity_id: &str,
        confirmation_count: usize,
        latest_hash: Option<String>,
    ) -> (res: Result<AuditEntry, DuskuraError>)
        ensures
            logged(
                res,
                identity_id@,
                "FINAL_REST_INVOKED"@,
                final_rest_details(confirmation_count as nat),
                latest_hash,
            ),
            res matches Ok(e) ==> e.details@ == "{\"confirmation_count\":"@ + nat_numeral(
                confirmation_count as nat,
            ) + "}"@,
    {
        let count = crate::text::nat_text(confirmation_count as u64);
        let mut d = String::from_str("{");
        push_member(&mut d, "confirmation_count", count.as_str());
        d.append("}");
        proof {
            reveal_strlit("{");
            reveal_strlit("}");
        }
        assert(d@ =~= final_rest_details(confirmation_count as nat));
        proof {
            lemma_details_name_their_arguments(Seq::empty(), Seq::empty(), Seq::empty(), confirmation_count as nat);
        }
        self.log_operation(identity_id, "FINAL_REST_INVOKED", d, latest_hash)
    }

    /// Reads an identity's stored trail (oldest first); fails on the first
    /// row that does not parse.
    pub fn get_trail(&self, rows: Vec<AuditRow>) -> (res: Result<Vec<AuditEntry>, DuskuraError>)
        ensures
            res is Ok <==> (forall|i: int|
                0 <= i < rows@.len() ==> audit_row_parses(#[trigger] rows@[i])),
            res matches Ok(v) ==> v@.len() == rows@.len() && (forall|i: int|
                0 <= i < rows@.len() ==> audit_entry_of_row(#[trigger] v@[i], rows@[i])),
            res matches Err(e) ==> (exists|k: int|
                0 <= k < rows@.len() && audit_row_error(e, #[trigger] rows@[k])
                    && !audit_row_parses(rows@[k]) && (forall|j: int|
                    0 <= j < k ==> audit_row_parses(#[trigger] rows@[j]))),
    {
        let ghost all = rows@;
        let mut rest = rows;
        let mut out: Vec<AuditEntry> = Vec::new();
        let mut i: usize = 0;
        let n = rest.len();
        while i < n
            invariant
                n == all.len(),
                all == rows@,
                i <= n,
                rest@ == all.subrange(i as int, n as int),
                out@.len() == i,
                forall|j: int| 0 <= j < i ==> audit_row_parses(#[trigger] all[j]),
                forall|j: int| 0 <= j < i ==> audit_entry_of_row(#[trigger] out@[j], all[j]),
            decreases n - i,
        {
            let row = rest.remove(0);
            assert(row == all[i as int]);
            match audit_entry_from_row(row) {
                Ok(e) => {
                    out.push(e);
                },
                Err(e) => {
                    assert(audit_row_error(e, rows@[i as int]) && !audit_row_parses(
                        rows@[i as int],
                    ));
                    assert(forall|j: int| 0 <= j < i ==> audit_row_parses(#[trigger] rows@[j]));
                    return Err(e);
                },
            }
            i = i + 1;
            assert(rest@ =~= all.subrange(i as int, n as int));
        }
        Ok(out)
    }

    /// Whether a trail (oldest first) is intact: each entry names the hash
    /// before it, the first naming the audit genesis marker.
    pub fn verify_trail_integrity(&self, entries: &Vec<AuditEntry>) -> (res: bool)
        ensures
            res == trail_chained(entries@),
    {
        let ghost hashes = audit_hashes(entries@);
        let ghost prevs = audit_prevs(entries@);
        if entries.len() == 0 {
            return true;
        }
        let mut prev_hash = String::from_str("audit-genesis");
        let mut i: usize = 0;
        while i < entries.len()
            invariant
                hashes == audit_hashes(entries@),
                prevs == audit_prevs(entries@),
                i <= entries@.len(),
                prev_hash@ == expected_prev(audit_genesis(), hashes, i as int),
                forall|j: int| 0 <= j < i ==> link_holds(audit_genesis(), hashes, prevs, j),
            decreases entries@.len() - i,
        {
            let entry = &entries[i];
            if entry.prev_hash != prev_hash {
                assert(!link_holds(audit_genesis(), hashes, prevs, i as int));
                return false;
            }
            prev_hash = entry.hash.clone();
            i = i + 1;
        }
        true
    }

    /// A readable summary of a trail given oldest first (see
    /// `trail_summary`).
    pub fn get_summary(&self, identity_id: &str, entries: &Vec<AuditEntry>) -> (res: String)
        ensures
            res@ == trail_summary(identity_id@, entries@),
    {
        let mut summary = String::from_str("Audit Trail for ");
        summary.append(identity_id);
        crate::outside::push_char(&mut summary, '\n');
        summary.append("Total entries: ");
        push_nat(&mut summary, entries.len() as u64);
        crate::outside::push_char(&mut summary, '\n');
        crate::outside::push_char(&mut summary, '\n');
        let ghost header = summary@;
        assert(header =~= "Audit Trail for "@ + identity_id@ + seq!['\n'] + "Total entries: "@
            + nat_numeral(entries@.len()) + seq!['\n', '\n']);
        let n = entries.len();
        let shown: usize = if n < 10 { n } else { 10 };
        let mut k: usize = 0;
        while k < shown
            invariant
                n == entries@.len(),
                shown <= n,
                shown <= 10,
                k <= shown,
                summary@ == header + newest_lines(entries@, k as nat),
            decreases shown - k,
        {
            let e = &entries[n - 1 - k];
            let time = match format_utc_summary(e.timestamp.as_str()) {
                Some(t) => t,
                None => e.timestamp.clone(),
            };
            let ghost before = summary@;
            crate::outside::push_char(&mut summary, '[');
            summary.append(time.as_str());
            summary.append("] ");
            summary.append(e.operation.as_str());
            summary.append(": ");
            summary.append(e.details.as_str());
            crate::outside::push_char(&mut summary, '\n');
            assert(summary@ =~= before + summary_line(entries@[n - (k + 1)]));
            k = k + 1;
        }
        summary
    }
}

/// An audit entry logged after the newest entry of an intact trail keeps
/// the trail intact: logging never breaks the audit chain.
pub proof fn lemma_log_extends_trail(entries: Seq<AuditEntry>, new_entry: AuditEntry)
    requires
        trail_chained(entries),
        new_entry.prev_hash@ == chain_tip(audit_genesis(), audit_hashes(entries)),
    ensures
        trail_chained(entries.push(new_entry)),
{
    lemma_append_keeps_chain(audit_genesis(), audit_hashes(entries), audit_prevs(entries), new_entry.hash@);
    assert(audit_hashes(entries.push(new_entry)) =~= audit_hashes(entries).push(new_entry.hash@));
    assert(audit_prevs(entries.push(new_entry)) =~= audit_prevs(entries).push(new_entry.prev_hash@));
}

} // verus!
