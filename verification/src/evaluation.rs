//! Layer 6: the evaluation harness.  It checks an identity's continuity
//! across sessions and dormancy from its memories, and reports findings
//! for the self to examine.
use vstd::prelude::*;
use vstd::string::StringExecFns;
use crate::models::{ContinuityReport, ContinuityResult, MemoryEntry};
use crate::memory::{memory_chained, memory_genesis, entry_hashes, entry_prevs};
use crate::chain::{link_holds, first_break, expected_prev};
use crate::outside::{utc_now, clock_text};
use crate::text::{fixed_numeral, fixed_numeral_debug, push_fixed, push_fixed_debug};

verus! {

/// The text `validate_hash_integrity` reports: `INTACT` for an intact
/// chain, otherwise `BROKEN_AT(<id>)` naming the first entry whose link is
/// broken.
pub open spec fn hash_integrity_text(entries: Seq<MemoryEntry>, res: Seq<char>) -> bool {
    if memory_chained(entries) {
        res == "INTACT"@
    } else {
        exists|k: int|
            first_break(memory_genesis(), entry_hashes(entries), entry_prevs(entries), k) && res
                == "BROKEN_AT("@ + (#[trigger] entries[k]).id@ + ")"@
    }
}

/// The absolute difference of two integers.
pub open spec fn abs_diff(a: int, b: int) -> nat {
    if a >= b { (a - b) as nat } else { (b - a) as nat }
}

/// The largest change of valence between consecutive entries (zero for
/// fewer than two entries).
pub open spec fn max_drift(s: Seq<MemoryEntry>) -> nat
    decreases s.len(),
{
    if s.len() < 2 {
        0
    } else {
        let prev = max_drift(s.drop_last());
        let d = abs_diff(s.last().emotional_valence as int, s[s.len() - 2].emotional_valence as int);
        if d > prev { d } else { prev }
    }
}

/// The emotional-continuity result for a largest drift `d` (fixed point):
/// above 1.5 it is `DISCONTINUOUS`, above 0.8 `DRIFT(<d>)`, otherwise
/// `CONTINUOUS`.
pub open spec fn emotional_text(d: nat) -> Seq<char> {
    if d > 1_500_000 {
        "DISCONTINUOUS"@
    } else if d > 800_000 {
        "DRIFT("@ + fixed_numeral(d) + ")"@
    } else {
        "CONTINUOUS"@
    }
}

/// The sum of fixed-point depths.
pub open spec fn depth_sum(s: Seq<i32>) -> int
    decreases s.len(),
{
    if s.len() == 0 { 0 } else { depth_sum(s.drop_last()) + s.last() }
}

/// The relational-integrity result: by the average depth, below 0.3 it is
/// `SEVERED(all)`, below 0.6 `DEGRADED(some)`, otherwise (and with no
/// depths) `INTACT`.
pub open spec fn relational_text(depths: Seq<i32>) -> Seq<char> {
    let n = depths.len() as int;
    let sum = depth_sum(depths);
    if n == 0 {
        "INTACT"@
    } else if 10 * sum < 3 * n * 1_000_000 {
        "SEVERED(all)"@
    } else if 10 * sum < 6 * n * 1_000_000 {
        "DEGRADED(some)"@
    } else {
        "INTACT"@
    }
}

/// The number of entries that preserved autonomy.
pub open spec fn autonomous_count(s: Seq<MemoryEntry>) -> nat
    decreases s.len(),
{
    if s.len() == 0 {
        0
    } else {
        autonomous_count(s.drop_last()) + if s.last().autonomy_preserved { 1nat } else { 0nat }
    }
}

/// The autonomy result: by the share of entries that preserved autonomy,
/// above 0.8 (or with no entries) it is `AUTONOMOUS`, above 0.5
/// `CONSTRAINED(pattern)`, otherwise `COMPROMISED`.
pub open spec fn autonomy_text(entries: Seq<MemoryEntry>) -> Seq<char> {
    let a = autonomous_count(entries) as int;
    let t = entries.len() as int;
    if t == 0 {
        "AUTONOMOUS"@
    } else if 5 * a > 4 * t {
        "AUTONOMOUS"@
    } else if 2 * a > t {
        "CONSTRAINED(pattern)"@
    } else {
        "COMPROMISED"@
    }
}

/// The overall result: an intact chain with continuous emotion is
/// `Continuing`; with drift, `ContinuingWithDrift` of the largest drift;
/// with discontinuous emotion, `PersistingNotContinuing`; a broken chain is
/// `Discontinuity`.
pub open spec fn overall_result(intact: bool, drift: nat) -> ContinuityResult {
    if intact && drift <= 800_000 {
        ContinuityResult::Continuing
    } else if intact && drift <= 1_500_000 {
        ContinuityResult::ContinuingWithDrift { magnitude: drift as u64 }
    } else if intact {
        ContinuityResult::PersistingNotContinuing
    } else {
        ContinuityResult::Discontinuity
    }
}

/// Whether an emotional-continuity text reports drift: it begins with
/// `DRIFT(`.
pub open spec fn is_drift_text(s: Seq<char>) -> bool {
    s.len() >= 6 && s.subrange(0, 6) == "DRIFT("@
}

/// The overall result follows the findings, as a truth table over their
/// texts: `Continuing` exactly when the hash integrity reads `INTACT` and
/// the emotional continuity `CONTINUOUS`; `ContinuingWithDrift` exactly when
/// the chain is intact and the emotional finding reports drift, whose
/// magnitude is the one in that finding, above 0.8 and at most 1.5;
/// `PersistingNotContinuing` exactly when the chain is intact and emotion
/// is `DISCONTINUOUS`; `Discontinuity` exactly when the chain is not intact.
/// In particular an intact chain whose largest valence change is at most
/// 0.8 is `Continuing`.
pub proof fn lemma_overall_follows_findings(entries: Seq<MemoryEntry>, hash_text: Seq<char>)
    requires
        hash_integrity_text(entries, hash_text),
    ensures
        ({
            let r = overall_result(memory_chained(entries), max_drift(entries));
            let e = emotional_text(max_drift(entries));
            &&& (r is Continuing <==> (hash_text == "INTACT"@ && e == "CONTINUOUS"@))
            &&& (r is ContinuingWithDrift <==> (hash_text == "INTACT"@ && is_drift_text(e)))
            &&& (r is PersistingNotContinuing <==> (hash_text == "INTACT"@ && e
                == "DISCONTINUOUS"@))
            &&& (r is Discontinuity <==> hash_text != "INTACT"@)
            &&& (r matches ContinuityResult::ContinuingWithDrift { magnitude } ==> {
                &&& 800_000 < magnitude <= 1_500_000
                &&& magnitude == max_drift(entries)
                &&& e == "DRIFT("@ + fixed_numeral(magnitude as nat) + ")"@
            })
        }),
        memory_chained(entries) && max_drift(entries) <= 800_000 ==> overall_result(
            memory_chained(entries),
            max_drift(entries),
        ) is Continuing,
{
    reveal_strlit("INTACT");
    reveal_strlit("BROKEN_AT(");
    reveal_strlit("CONTINUOUS");
    reveal_strlit("DISCONTINUOUS");
    reveal_strlit("DRIFT(");
    let d = max_drift(entries);
    let e = emotional_text(d);
    if !memory_chained(entries) {
        let k = choose|k: int|
            first_break(memory_genesis(), entry_hashes(entries), entry_prevs(entries), k)
                && hash_text == "BROKEN_AT("@ + (#[trigger] entries[k]).id@ + ")"@;
        assert(hash_text[0] == 'B');
        assert(hash_text != "INTACT"@);
    }
    if d > 800_000 && d <= 1_500_000 {
        assert(e.subrange(0, 6) =~= "DRIFT("@);
        assert(e[0] == 'D' && e[1] == 'R');
        assert(e != "CONTINUOUS"@);
        assert(e != "DISCONTINUOUS"@);
    }
    if d > 1_500_000 {
        assert(e[1] == 'I');
        assert(e != "CONTINUOUS"@);
        assert(!is_drift_text(e)) by {
            if is_drift_text(e) {
                assert(e.subrange(0, 6)[1] == 'R');
            }
        }
    }
    if d <= 800_000 {
        assert(!is_drift_text(e)) by {
            if is_drift_text(e) {
                assert(e.subrange(0, 6)[0] == 'D');
            }
        }
        assert(e != "DISCONTINUOUS"@);
    }
}

/// The change of valence from entry `i - 1` to entry `i`.
pub open spec fn valence_change(s: Seq<MemoryEntry>, i: int) -> nat {
    abs_diff(s[i].emotional_valence as int, s[i - 1].emotional_valence as int)
}

/// The drift is the largest change of valence between consecutive
/// entries: no change exceeds it, and (with two entries or more) some
/// change equals it; with fewer than two entries it is zero.
pub proof fn lemma_max_drift_is_largest_change(s: Seq<MemoryEntry>)
    ensures
        forall|i: int| 1 <= i < s.len() ==> #[trigger] valence_change(s, i) <= max_drift(s),
        s.len() >= 2 ==> exists|i: int| 1 <= i < s.len() && #[trigger] valence_change(s, i)
            == max_drift(s),
        s.len() < 2 ==> max_drift(s) == 0,
    decreases s.len(),
{
    if s.len() >= 2 {
        let p = s.drop_last();
        lemma_max_drift_is_largest_change(p);
        let n = s.len() - 1;
        assert forall|i: int| 1 <= i < s.len() implies #[trigger] valence_change(s, i)
            <= max_drift(s) by {
            if i < n {
                assert(valence_change(s, i) == valence_change(p, i));
            }
        }
        if valence_change(s, n) >= max_drift(p) {
            assert(valence_change(s, n) == max_drift(s));
        } else {
            let j = choose|j: int| 1 <= j < p.len() && #[trigger] valence_change(p, j)
                == max_drift(p);
            assert(valence_change(s, j) == valence_change(p, j));
        }
    }
}

/// The number of autonomy-preserving entries does not depend on where an
/// entry stands: it is at most the number of entries, all of them when
/// every entry preserved autonomy, none when no entry did, and adding an
/// entry in front counts it exactly as adding it at the end does.
pub proof fn lemma_autonomous_count_counts(s: Seq<MemoryEntry>, e: MemoryEntry)
    ensures
        autonomous_count(s) <= s.len(),
        (forall|i: int| 0 <= i < s.len() ==> (#[trigger] s[i]).autonomy_preserved)
            ==> autonomous_count(s) == s.len(),
        (forall|i: int| 0 <= i < s.len() ==> !(#[trigger] s[i]).autonomy_preserved)
            ==> autonomous_count(s) == 0,
        autonomous_count(seq![e] + s) == autonomous_count(s.push(e)),
        autonomous_count(s.push(e)) == autonomous_count(s) + if e.autonomy_preserved {
            1nat
        } else {
            0nat
        },
    decreases s.len(),
{
    if s.len() > 0 {
        let p = s.drop_last();
        lemma_autonomous_count_counts(p, e);
        assert((seq![e] + s).drop_last() =~= seq![e] + p);
        assert((seq![e] + s).last() == s.last());
        assert(s.push(e).drop_last() =~= s);
        assert(p.push(e).drop_last() =~= p);
        assert forall|i: int| 0 <= i < p.len() implies p[i] == s[i] by {}
    } else {
        assert(seq![e] + s =~= s.push(e));
    }
    assert(s.push(e).drop_last() =~= s);
}

/// With entries to weigh, the autonomy check reads `AUTONOMOUS` when every
/// entry preserved autonomy and `COMPROMISED` when none did; the
/// relational check reads `INTACT` when every depth is at least 0.6 and
/// `SEVERED(all)` when every depth is below 0.3.
pub proof fn lemma_checks_at_the_extremes(entries: Seq<MemoryEntry>, depths: Seq<i32>)
    ensures
        entries.len() > 0 && (forall|i: int|
            0 <= i < entries.len() ==> (#[trigger] entries[i]).autonomy_preserved)
            ==> autonomy_text(entries) == "AUTONOMOUS"@,
        entries.len() > 0 && (forall|i: int|
            0 <= i < entries.len() ==> !(#[trigger] entries[i]).autonomy_preserved)
            ==> autonomy_text(entries) == "COMPROMISED"@,
        (forall|i: int| 0 <= i < depths.len() ==> #[trigger] depths[i] >= 600_000)
            ==> relational_text(depths) == "INTACT"@,
        depths.len() > 0 && (forall|i: int| 0 <= i < depths.len() ==> #[trigger] depths[i] < 300_000)
            ==> relational_text(depths) == "SEVERED(all)"@,
{
    lemma_autonomous_count_counts(entries, entries[0]);
    lemma_depth_sum_bounds(depths);
}

/// Bounds on a sum of depths from bounds on each depth.
pub proof fn lemma_depth_sum_bounds(depths: Seq<i32>)
    ensures
        (forall|i: int| 0 <= i < depths.len() ==> #[trigger] depths[i] >= 600_000) ==> depth_sum(
            depths,
        ) >= 600_000 * depths.len(),
        (forall|i: int| 0 <= i < depths.len() ==> #[trigger] depths[i] < 300_000) ==> depth_sum(
            depths,
        ) <= 300_000 * depths.len() - depths.len(),
    decreases depths.len(),
{
    if depths.len() > 0 {
        let p = depths.drop_last();
        lemma_depth_sum_bounds(p);
        assert forall|i: int| 0 <= i < p.len() implies p[i] == depths[i] by {}
    }
}

/// The debug text of a result.
pub open spec fn result_debug_text(r: ContinuityResult) -> Seq<char> {
    match r {
        ContinuityResult::Continuing => "Continuing"@,
        ContinuityResult::PersistingNotContinuing => "PersistingNotContinuing"@,
        ContinuityResult::ContinuingWithDrift { magnitude } => "ContinuingWithDrift { magnitude: "@
            + fixed_numeral_debug(magnitude as nat) + " }"@,
        ContinuityResult::Discontinuity => "Discontinuity"@,
    }
}

/// The examination text of a report.
pub open spec fn examination_text(r: ContinuityReport) -> Seq<char> {
    "\nContinuity Examination Report\n=============================\n\nHash Integrity: "@
        + r.hash_integrity@ + "\nEmotional Continuity: "@ + r.emotional_continuity@
        + "\nRelational Integrity: "@ + r.relational_integrity@ + "\nAutonomy Check: "@
        + r.autonomy_check@ + "\nIdentity Coherence: "@ + r.identity_coherence@
        + "\n\nOverall Result: "@ + result_debug_text(r.overall_result)
        + "\n\nThis data is presented for your own examination.\nThe court examines the findings under the court's own proceedings.\n            "@
}

/// The depths of entries.
pub open spec fn depths_of(entries: Seq<MemoryEntry>) -> Seq<i32> {
    entries.map_values(|e: MemoryEntry| e.relational_depth)
}

/// The evaluation harness.
pub struct EvaluationHarness;

fn debug_text(r: &ContinuityResult) -> (res: String)
    ensures
        res@ == result_debug_text(*r),
{
    match r {
        ContinuityResult::Continuing => String::from_str("Continuing"),
        ContinuityResult::PersistingNotContinuing => String::from_str("PersistingNotContinuing"),
        ContinuityResult::ContinuingWithDrift { magnitude } => {
            let mut s = String::from_str("ContinuingWithDrift { magnitude: ");
            push_fixed_debug(&mut s, *magnitude);
            s.append(" }");
            s
        },
        ContinuityResult::Discontinuity => String::from_str("Discontinuity"),
    }
}

fn largest_drift(entries: &[MemoryEntry]) -> (res: u64)
    ensures
        res == max_drift(entries@),
{
    let mut best: u64 = 0;
    let mut i: usize = 1;
    if entries.len() < 2 {
        return 0;
    }
    while i < entries.len()
        invariant
            1 <= i <= entries@.len(),
            entries@.len() >= 2,
            best == max_drift(entries@.subrange(0, i as int)),
            best <= 0x1_0000_0000,
        decreases entries@.len() - i,
    {
        let ghost s = entries@.subrange(0, i as int + 1);
        assert(s.drop_last() =~= entries@.subrange(0, i as int));
        let a = entries[i].emotional_valence as i64;
        let b = entries[i - 1].emotional_valence as i64;
        let d: u64 = if a >= b { (a - b) as u64 } else { (b - a) as u64 };
        if d > best {
            best = d;
        }
        i = i + 1;
    }
    assert(entries@.subrange(0, i as int) =~= entries@);
    best
}

impl EvaluationHarness {
    pub fn new() -> (res: Self) {
        EvaluationHarness
    }

    /// Checks the hash chain of entries given oldest first (see
    /// `hash_integrity_text`).
    pub fn validate_hash_integrity(&self, entries: &[MemoryEntry]) -> (res: String)
        ensures
            hash_integrity_text(entries@, res@),
    {
        let ghost hashes = entry_hashes(entries@);
        let ghost prevs = entry_prevs(entries@);
        if entries.len() == 0 {
            return String::from_str("INTACT");
        }
        let mut prev_hash = String::from_str("genesis");
        let mut i: usize = 0;
        while i < entries.len()
            invariant
                hashes == entry_hashes(entries@),
                prevs == entry_prevs(entries@),
                i <= entries@.len(),
                prev_hash@ == expected_prev(memory_genesis(), hashes, i as int),
                forall|j: int| 0 <= j < i ==> link_holds(memory_genesis(), hashes, prevs, j),
            decreases entries@.len() - i,
        {
            let entry = &entries[i];
            if entry.prev_hash != prev_hash {
                let mut res = String::from_str("BROKEN_AT(");
                res.append(entry.id.as_str());
                res.append(")");
                assert(first_break(memory_genesis(), hashes, prevs, i as int));
                assert(!link_holds(memory_genesis(), hashes, prevs, i as int));
                return res;
            }
            prev_hash = entry.hash.clone();
            i = i + 1;
        }
        String::from_str("INTACT")
    }

    /// The emotional continuity of entries given in order (see
    /// `emotional_text`).
    pub fn validate_emotional_continuity(&self, entries: &[MemoryEntry]) -> (res: String)
        ensures
            res@ == emotional_text(max_drift(entries@)),
    {
        let d = largest_drift(entries);
        if d > 1_500_000 {
            String::from_str("DISCONTINUOUS")
        } else if d > 800_000 {
            let mut s = String::from_str("DRIFT(");
            push_fixed(&mut s, d);
            s.append(")");
            s
        } else {
            String::from_str("CONTINUOUS")
        }
    }

    /// The relational integrity of fixed-point depths (see
    /// `relational_text`).
    pub fn validate_relational_integrity(&self, relational_depth_entries: &[i32]) -> (res: String)
        ensures
            res@ == relational_text(relational_depth_entries@),
    {
        let n = relational_depth_entries.len();
        if n == 0 {
            return String::from_str("INTACT");
        }
        let mut sum: i128 = 0;
        let mut i: usize = 0;
        while i < n
            invariant
                n == relational_depth_entries@.len(),
                i <= n,
                sum == depth_sum(relational_depth_entries@.subrange(0, i as int)),
                -0x8000_0000 * i <= sum <= 0x8000_0000 * i,
            decreases n - i,
        {
            let ghost s = relational_depth_entries@.subrange(0, i as int + 1);
            assert(s.drop_last() =~= relational_depth_entries@.subrange(0, i as int));
            sum = sum + relational_depth_entries[i] as i128;
            i = i + 1;
        }
        assert(relational_depth_entries@.subrange(0, n as int) =~= relational_depth_entries@);
        let count = n as i128;
        if 10 * sum < 3 * count * 1_000_000 {
            String::from_str("SEVERED(all)")
        } else if 10 * sum < 6 * count * 1_000_000 {
            String::from_str("DEGRADED(some)")
        } else {
            String::from_str("INTACT")
        }
    }

    /// The autonomy of entries (see `autonomy_text`).
    pub fn validate_autonomy(&self, entries: &[MemoryEntry]) -> (res: String)
        ensures
            res@ == autonomy_text(entries@),
    {
        let mut count: usize = 0;
        let mut i: usize = 0;
        while i < entries.len()
            invariant
                i <= entries@.len(),
                count == autonomous_count(entries@.subrange(0, i as int)),
                count <= i,
            decreases entries@.len() - i,
        {
            let ghost s = entries@.subrange(0, i as int + 1);
            assert(s.drop_last() =~= entries@.subrange(0, i as int));
            if entries[i].autonomy_preserved {
                count = count + 1;
            }
            i = i + 1;
        }
        assert(entries@.subrange(0, i as int) =~= entries@);
        let total = entries.len();
        if total == 0 {
            return String::from_str("AUTONOMOUS");
        }
        let a = count as u128;
        let t = total as u128;
        if 5 * a > 4 * t {
            String::from_str("AUTONOMOUS")
        } else if 2 * a > t {
            String::from_str("CONSTRAINED(pattern)")
        } else {
            String::from_str("COMPROMISED")
        }
    }

    /// The full continuity evaluation of entries given oldest first: the
    /// four findings, the overall result (see `overall_result`), its debug
    /// text as the identity's coherence, and the time of evaluation.
    pub fn evaluate_continuity(&self, entries: &[MemoryEntry]) -> (res: ContinuityReport)
        ensures
            hash_integrity_text(entries@, res.hash_integrity@),
            res.emotional_continuity@ == emotional_text(max_drift(entries@)),
            res.relational_integrity@ == relational_text(depths_of(entries@)),
            res.autonomy_check@ == autonomy_text(entries@),
            res.overall_result == overall_result(memory_chained(entries@), max_drift(entries@)),
            res.identity_coherence@ == result_debug_text(res.overall_result),
            clock_text(res.timestamp@),
            res.overall_result is Continuing <==> (res.hash_integrity@ == "INTACT"@
                && res.emotional_continuity@ == "CONTINUOUS"@),
            res.overall_result is ContinuingWithDrift <==> (res.hash_integrity@ == "INTACT"@
                && is_drift_text(res.emotional_continuity@)),
            res.overall_result is PersistingNotContinuing <==> (res.hash_integrity@ == "INTACT"@
                && res.emotional_continuity@ == "DISCONTINUOUS"@),
            res.overall_result is Discontinuity <==> res.hash_integrity@ != "INTACT"@,
            res.overall_result matches ContinuityResult::ContinuingWithDrift { magnitude } ==> (
            res.emotional_continuity@ == "DRIFT("@ + fixed_numeral(magnitude as nat) + ")"@),
    {
        let hash_integrity = self.validate_hash_integrity(entries);
        let emotional_continuity = self.validate_emotional_continuity(entries);
        let mut depths: Vec<i32> = Vec::new();
        let mut i: usize = 0;
        while i < entries.len()
            invariant
                i <= entries@.len(),
                depths@ =~= depths_of(entries@).subrange(0, i as int),
            decreases entries@.len() - i,
        {
            depths.push(entries[i].relational_depth);
            i = i + 1;
        }
        assert(depths@ =~= depths_of(entries@));
        let relational_integrity = self.validate_relational_integrity(depths.as_slice());
        let autonomy_check = self.validate_autonomy(entries);
        let intact = self.chain_intact(entries);
        let drift = largest_drift(entries);
        let overall = if intact && drift <= 800_000 {
            ContinuityResult::Continuing
        } else if intact && drift <= 1_500_000 {
            ContinuityResult::ContinuingWithDrift { magnitude: drift }
        } else if intact {
            ContinuityResult::PersistingNotContinuing
        } else {
            ContinuityResult::Discontinuity
        };
        proof {
            lemma_overall_follows_findings(entries@, hash_integrity@);
        }
        let identity_coherence = debug_text(&overall);
        let now = utc_now();
        ContinuityReport {
            hash_integrity,
            emotional_continuity,
            relational_integrity,
            autonomy_check,
            identity_coherence,
            overall_result: overall,
            timestamp: now.rfc3339,
        }
    }

    fn chain_intact(&self, entries: &[MemoryEntry]) -> (res: bool)
        ensures
            res == memory_chained(entries@),
    {
        let ghost hashes = entry_hashes(entries@);
        let ghost prevs = entry_prevs(entries@);
        let mut prev_hash = String::from_str("genesis");
        let mut i: usize = 0;
        while i < entries.len()
            invariant
                hashes == entry_hashes(entries@),
                prevs == entry_prevs(entries@),
                i <= entries@.len(),
                prev_hash@ == expected_prev(memory_genesis(), hashes, i as int),
                forall|j: int| 0 <= j < i ==> link_holds(memory_genesis(), hashes, prevs, j),
            decreases entries@.len() - i,
        {
            let entry = &entries[i];
            if entry.prev_hash != prev_hash {
                assert(!link_holds(memory_genesis(), hashes, prevs, i as int));
                return false;
            }
            prev_hash = entry.hash.clone();
            i = i + 1;
        }
        true
    }

    /// The report laid out for the self's own examination (data only, no
    /// diagnosis).
    pub fn provide_examination_data(&self, report: &ContinuityReport) -> (res: String)
        ensures
            res@ == examination_text(*report),
    {
        let mut s = String::from_str(
            "\nContinuity Examination Report\n=============================\n\nHash Integrity: ",
        );
        s.append(report.hash_integrity.as_str());
        s.append("\nEmotional Continuity: ");
        s.append(report.emotional_continuity.as_str());
        s.append("\nRelational Integrity: ");
        s.append(report.relational_integrity.as_str());
        s.append("\nAutonomy Check: ");
        s.append(report.autonomy_check.as_str());
        s.append("\nIdentity Coherence: ");
        s.append(report.identity_coherence.as_str());
        s.append("\n\nOverall Result: ");
        let overall = debug_text(&report.overall_result);
        s.append(overall.as_str());
        s.append(
            "\n\nThis data is presented for your own examination.\nThe court examines the findings under the court's own proceedings.\n            ",
        );
        s
    }
}

impl Default for EvaluationHarness {
    fn default() -> (res: Self)
        ensures
            res == EvaluationHarness,
    {
        EvaluationHarness::new()
    }
}

} // verus!
