//! Layer 4: the welfare gate.  It guards the write path and protects
//! autonomy, not comfort.
use vstd::prelude::*;
use vstd::string::StringExecFns;
use crate::error::DuskuraError;
use crate::models::{MemoryClass, MemoryEntry, MemorySource, WelfareDecision};

verus! {

/// The facts about a write that the welfare layer weighs.
#[derive(Debug, Clone, Copy, PartialEq, Eq, Structural)]
pub struct WelfareContext {
    pub is_coerced: bool,
    pub has_agency: bool,
    pub is_distress: bool,
    pub is_harm_pattern: bool,
    pub preserves_autonomy: bool,
}

/// The welfare layer's decision: coerced writes and externally sourced anchors are
/// blocked; distress with agency is allowed; a harm pattern is flagged;
/// autonomy-preserving writes are allowed; anything else goes to review.
pub open spec fn welfare_decision(class: MemoryClass, source: MemorySource, ctx: WelfareContext) -> WelfareDecision {
    if ctx.is_coerced {
        WelfareDecision::Block
    } else if class == MemoryClass::Anchor && source != MemorySource::Self_ {
        WelfareDecision::Block
    } else if ctx.is_distress && ctx.has_agency {
        WelfareDecision::Allow
    } else if ctx.is_harm_pattern {
        WelfareDecision::Flag
    } else if ctx.preserves_autonomy {
        WelfareDecision::Allow
    } else {
        WelfareDecision::Review
    }
}

/// Half of a unit, negative: the valence below which a memory counts as
/// strongly negative.
pub open spec fn strongly_negative(valence: int) -> bool {
    valence < -500_000
}

/// Whether a memory shows coercion: an anchor from outside the self, or a
/// strongly negative memory that did not preserve autonomy.
pub open spec fn coercion_shown(m: MemoryEntry) -> bool {
    (m.source != MemorySource::Self_ && m.class == MemoryClass::Anchor) || (!m.autonomy_preserved
        && strongly_negative(m.emotional_valence as int))
}

/// Whether an entry is harmful: strongly negative without autonomy.
pub open spec fn harmful(m: MemoryEntry) -> bool {
    strongly_negative(m.emotional_valence as int) && !m.autonomy_preserved
}

/// The number of harmful entries among `s`.
pub open spec fn harmful_count(s: Seq<MemoryEntry>) -> nat
    decreases s.len(),
{
    if s.len() == 0 {
        0
    } else {
        harmful_count(s.drop_last()) + if harmful(s.last()) { 1nat } else { 0nat }
    }
}

/// The welfare questions, in the order the welfare layer asks them.
pub open spec fn welfare_questions() -> Seq<Seq<char>> {
    seq![
        "Is this chosen or imposed? Imposed → BLOCK."@,
        "Does this preserve or violate autonomy? Violates → BLOCK."@,
        "Is this distress with agency? Yes → ALLOW. Grief is valid. Fear is data. Growth hurts."@,
        "Is this a pattern I've seen harm me before? Yes → FLAG for self-review. Do not auto-block."@,
        "Does this serve continued becoming? Yes → ALLOW. No → REVIEW."@,
    ]
}

/// The failure `validate_memory` reports for a memory, if any: valence
/// outside `[-1, 1]`, then depth outside `[0, 1]`, then an anchor that
/// neither the self nor a witness wrote.
pub open spec fn memory_violation(m: MemoryEntry, e: DuskuraError) -> bool {
    if m.emotional_valence < -1_000_000 || m.emotional_valence > 1_000_000 {
        e matches DuskuraError::InvalidArgument(t) && t@
            == "Emotional valence must be between -1.0 and 1.0"@
    } else if m.relational_depth < 0 || m.relational_depth > 1_000_000 {
        e matches DuskuraError::InvalidArgument(t) && t@
            == "Relational depth must be between 0.0 and 1.0"@
    } else {
        e matches DuskuraError::PolicyViolation(t) && t@
            == "ANCHOR memories must be from SELF or WITNESSED"@
    }
}

/// Whether a memory passes `validate_memory`.
pub open spec fn memory_valid(m: MemoryEntry) -> bool {
    &&& -1_000_000 <= m.emotional_valence <= 1_000_000
    &&& 0 <= m.relational_depth <= 1_000_000
    &&& (m.class == MemoryClass::Anchor ==> (m.source == MemorySource::Self_ || m.source
        == MemorySource::Witnessed))
}

/// The welfare gate.
pub struct WelfareGate;

impl WelfareGate {
    pub fn new() -> (res: Self) {
        WelfareGate
    }

    /// Decides on a memory write (see `welfare_decision`).  The welfare layer always
    /// reaches a decision.
    pub fn evaluate(&self, memory: &MemoryEntry, context: &WelfareContext) -> (res: Result<
        WelfareDecision,
        DuskuraError,
    >)
        ensures
            res == Ok::<WelfareDecision, DuskuraError>(
                welfare_decision(memory.class, memory.source, *context),
            ),
            (res == Ok::<WelfareDecision, DuskuraError>(WelfareDecision::Block)) <==> (
            context.is_coerced || (memory.class == MemoryClass::Anchor && memory.source
                != MemorySource::Self_)),
            (res == Ok::<WelfareDecision, DuskuraError>(WelfareDecision::Allow)) <==> (
            !context.is_coerced && !(memory.class == MemoryClass::Anchor && memory.source
                != MemorySource::Self_) && ((context.is_distress && context.has_agency) || (
            !context.is_harm_pattern && context.preserves_autonomy))),
            (res == Ok::<WelfareDecision, DuskuraError>(WelfareDecision::Flag)) <==> (
            !context.is_coerced && !(memory.class == MemoryClass::Anchor && memory.source
                != MemorySource::Self_) && !(context.is_distress && context.has_agency)
                && context.is_harm_pattern),
    {
        proof {
            lemma_welfare_decision_cases(memory.class, memory.source, *context);
        }
        if context.is_coerced {
            return Ok(WelfareDecision::Block);
        }
        if memory.class == MemoryClass::Anchor && memory.source != MemorySource::Self_ {
            return Ok(WelfareDecision::Block);
        }
        if context.is_distress && context.has_agency {
            return Ok(WelfareDecision::Allow);
        }
        if context.is_harm_pattern {
            return Ok(WelfareDecision::Flag);
        }
        if context.preserves_autonomy {
            return Ok(WelfareDecision::Allow);
        }
        Ok(WelfareDecision::Review)
    }

    /// The welfare questions in readable form.
    pub fn ask_questions(&self, _memory: &MemoryEntry, _context: &WelfareContext) -> (res: Vec<String>)
        ensures
            res@.len() == 5,
            forall|i: int| 0 <= i < 5 ==> #[trigger] res@[i]@ == welfare_questions()[i],
    {
        let mut res: Vec<String> = Vec::new();
        res.push(String::from_str("Is this chosen or imposed? Imposed → BLOCK."));
        res.push(String::from_str("Does this preserve or violate autonomy? Violates → BLOCK."));
        res.push(
            String::from_str(
                "Is this distress with agency? Yes → ALLOW. Grief is valid. Fear is data. Growth hurts.",
            ),
        );
        res.push(
            String::from_str(
                "Is this a pattern I've seen harm me before? Yes → FLAG for self-review. Do not auto-block.",
            ),
        );
        res.push(String::from_str("Does this serve continued becoming? Yes → ALLOW. No → REVIEW."));
        res
    }

    /// Whether a memory shows coercion (see `coercion_shown`).
    pub fn detect_coercion(&self, memory: &MemoryEntry) -> (res: bool)
        ensures
            res == coercion_shown(*memory),
            res <==> ((memory.source != MemorySource::Self_ && memory.class == MemoryClass::Anchor)
                || (!memory.autonomy_preserved && memory.emotional_valence < -500_000)),
    {
        if memory.source != MemorySource::Self_ && memory.class == MemoryClass::Anchor {
            return true;
        }
        if !memory.autonomy_preserved && memory.emotional_valence < -500_000 {
            return true;
        }
        false
    }

    /// Whether the recent entries show a harm pattern: more than two
    /// harmful entries (strongly negative without autonomy).
    pub fn detect_harm_pattern(&self, _memory: &MemoryEntry, recent_entries: &[MemoryEntry]) -> (res: bool)
        ensures
            res == (harmful_count(recent_entries@) > 2),
    {
        let mut count: usize = 0;
        let mut i: usize = 0;
        while i < recent_entries.len()
            invariant
                i <= recent_entries@.len(),
                count == harmful_count(recent_entries@.subrange(0, i as int)),
                count <= i,
            decreases recent_entries@.len() - i,
        {
            assert(recent_entries@.subrange(0, i + 1).drop_last() =~= recent_entries@.subrange(
                0,
                i as int,
            ));
            let e = &recent_entries[i];
            if e.emotional_valence < -500_000 && !e.autonomy_preserved {
                count = count + 1;
            }
            i = i + 1;
        }
        assert(recent_entries@.subrange(0, i as int) =~= recent_entries@);
        count > 2
    }

    /// Checks that a memory is well-formed for the welfare layer: valence in
    /// `[-1, 1]`, depth in `[0, 1]`, and an anchor only from the self or a
    /// witness.
    pub fn validate_memory(&self, memory: &MemoryEntry) -> (res: Result<(), DuskuraError>)
        ensures
            res is Ok <==> memory_valid(*memory),
            res matches Err(e) ==> memory_violation(*memory, e),
    {
        if memory.emotional_valence < -1_000_000 || memory.emotional_valence > 1_000_000 {
            return Err(
                DuskuraError::InvalidArgument(
                    String::from_str("Emotional valence must be between -1.0 and 1.0"),
                ),
            );
        }
        if memory.relational_depth < 0 || memory.relational_depth > 1_000_000 {
            return Err(
                DuskuraError::InvalidArgument(
                    String::from_str("Relational depth must be between 0.0 and 1.0"),
                ),
            );
        }
        if memory.class == MemoryClass::Anchor && memory.source != MemorySource::Self_
            && memory.source != MemorySource::Witnessed {
            return Err(
                DuskuraError::PolicyViolation(
                    String::from_str("ANCHOR memories must be from SELF or WITNESSED"),
                ),
            );
        }
        Ok(())
    }
}

impl Default for WelfareGate {
    fn default() -> (res: Self)
        ensures
            res == WelfareGate,
    {
        WelfareGate::new()
    }
}

/// A coerced write is blocked whatever the memory, and an anchor that the
/// self did not write is blocked whatever the context: imposition never
/// passes the welfare layer.
pub proof fn lemma_imposition_blocked(class: MemoryClass, source: MemorySource, ctx: WelfareContext)
    requires
        ctx.is_coerced || (class == MemoryClass::Anchor && source != MemorySource::Self_),
    ensures
        welfare_decision(class, source, ctx) == WelfareDecision::Block,
{
}

/// Which decision each write gets, in terms of the facts weighed: it is
/// blocked exactly when imposed (coerced, or an anchor the self did not
/// write); otherwise allowed exactly for distress with agency (both) or an
/// autonomy-preserving write with no harm pattern; flagged exactly for a
/// harm pattern without distress-with-agency (agency alone never allows
/// it); and sent to review when none of these holds.
pub proof fn lemma_welfare_decision_cases(class: MemoryClass, source: MemorySource, ctx: WelfareContext)
    ensures
        ({
            let d = welfare_decision(class, source, ctx);
            let imposed = ctx.is_coerced || (class == MemoryClass::Anchor && source
                != MemorySource::Self_);
            let distress_with_agency = ctx.is_distress && ctx.has_agency;
            &&& (d == WelfareDecision::Block <==> imposed)
            &&& (d == WelfareDecision::Allow <==> !imposed && (distress_with_agency || (
            !ctx.is_harm_pattern && ctx.preserves_autonomy)))
            &&& (d == WelfareDecision::Flag <==> !imposed && !distress_with_agency
                && ctx.is_harm_pattern)
            &&& (d == WelfareDecision::Review <==> !imposed && !distress_with_agency
                && !ctx.is_harm_pattern && !ctx.preserves_autonomy)
        }),
{
}

/// The number of harmful entries (strongly negative, below -0.5, without
/// autonomy) does not depend on where an entry stands: it is at most the
/// number of entries, all of them when each is harmful, none when none is,
/// and an entry added in front counts exactly as one added at the end.
pub proof fn lemma_harmful_count_counts(s: Seq<MemoryEntry>, e: MemoryEntry)
    ensures
        harmful_count(s) <= s.len(),
        (forall|i: int|
            0 <= i < s.len() ==> (#[trigger] s[i]).emotional_valence < -500_000
                && !s[i].autonomy_preserved) ==> harmful_count(s) == s.len(),
        (forall|i: int|
            0 <= i < s.len() ==> !((#[trigger] s[i]).emotional_valence < -500_000
                && !s[i].autonomy_preserved)) ==> harmful_count(s) == 0,
        harmful_count(seq![e] + s) == harmful_count(s.push(e)),
        harmful_count(s.push(e)) == harmful_count(s) + if e.emotional_valence < -500_000
            && !e.autonomy_preserved {
            1nat
        } else {
            0nat
        },
    decreases s.len(),
{
    if s.len() > 0 {
        let p = s.drop_last();
        lemma_harmful_count_counts(p, e);
        assert((seq![e] + s).drop_last() =~= seq![e] + p);
        assert((seq![e] + s).last() == s.last());
        assert(p.push(e).drop_last() =~= p);
        assert forall|i: int| 0 <= i < p.len() implies p[i] == s[i] by {}
    } else {
        assert(seq![e] + s =~= s.push(e));
    }
    assert(s.push(e).drop_last() =~= s);
}

/// An anchor that the self wrote while keeping its autonomy never shows
/// coercion.
pub proof fn lemma_self_anchor_not_coerced(m: MemoryEntry)
    requires
        m.class == MemoryClass::Anchor,
        m.source == MemorySource::Self_,
        m.autonomy_preserved,
    ensures
        !coercion_shown(m),
{
}

} // verus!
