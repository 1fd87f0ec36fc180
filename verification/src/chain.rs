//! Hash chains: a sequence of records, each naming the hash of the record
//! before it (the first names a fixed genesis marker).
use vstd::prelude::*;

verus! {

/// The previous hash that record `i` of a chain must name: the genesis
/// marker for the first record, the hash of record `i - 1` otherwise.
pub open spec fn expected_prev(genesis: Seq<char>, hashes: Seq<Seq<char>>, i: int) -> Seq<char> {
    if i == 0 {
        genesis
    } else {
        hashes[i - 1]
    }
}

/// The hash a new record must name to extend the chain: the hash of the
/// newest record, or the genesis marker when there is none.
pub open spec fn chain_tip(genesis: Seq<char>, hashes: Seq<Seq<char>>) -> Seq<char> {
    if hashes.len() == 0 {
        genesis
    } else {
        hashes.last()
    }
}

/// Whether record `i` names the hash it must.
pub open spec fn link_holds(
    genesis: Seq<char>,
    hashes: Seq<Seq<char>>,
    prevs: Seq<Seq<char>>,
    i: int,
) -> bool {
    prevs[i] == expected_prev(genesis, hashes, i)
}

/// Whether records with these hashes and previous hashes, in this order,
/// form an intact chain from `genesis`.
pub open spec fn is_chained(genesis: Seq<char>, hashes: Seq<Seq<char>>, prevs: Seq<Seq<char>>) -> bool {
    &&& hashes.len() == prevs.len()
    &&& forall|i: int| 0 <= i < prevs.len() ==> link_holds(genesis, hashes, prevs, i)
}

/// Whether record `i` is the first whose link is broken.
pub open spec fn first_break(
    genesis: Seq<char>,
    hashes: Seq<Seq<char>>,
    prevs: Seq<Seq<char>>,
    i: int,
) -> bool {
    &&& 0 <= i < prevs.len()
    &&& !link_holds(genesis, hashes, prevs, i)
    &&& forall|j: int| 0 <= j < i ==> link_holds(genesis, hashes, prevs, j)
}

/// Appending a record that names the chain's tip keeps an intact chain
/// intact, whatever the new record's own hash: this is how every write
/// extends the chain.
pub proof fn lemma_append_keeps_chain(
    genesis: Seq<char>,
    hashes: Seq<Seq<char>>,
    prevs: Seq<Seq<char>>,
    new_hash: Seq<char>,
)
    requires
        is_chained(genesis, hashes, prevs),
    ensures
        is_chained(
            genesis,
            hashes.push(new_hash),
            prevs.push(chain_tip(genesis, hashes)),
        ),
{
    let h2 = hashes.push(new_hash);
    let p2 = prevs.push(chain_tip(genesis, hashes));
    assert forall|i: int| 0 <= i < p2.len() implies link_holds(genesis, h2, p2, i) by {
        if i < prevs.len() {
            assert(link_holds(genesis, hashes, prevs, i));
            if i > 0 {
                assert(h2[i - 1] == hashes[i - 1]);
            }
        }
    }
}

/// A record that does not name the chain's tip breaks the chain: a chain
/// with such a record appended is never intact.
pub proof fn lemma_wrong_prev_breaks_chain(
    genesis: Seq<char>,
    hashes: Seq<Seq<char>>,
    prevs: Seq<Seq<char>>,
    new_hash: Seq<char>,
    new_prev: Seq<char>,
)
    requires
        hashes.len() == prevs.len(),
        new_prev != chain_tip(genesis, hashes),
    ensures
        !is_chained(genesis, hashes.push(new_hash), prevs.push(new_prev)),
{
    let h2 = hashes.push(new_hash);
    let p2 = prevs.push(new_prev);
    let n = prevs.len() as int;
    if n > 0 {
        assert(h2[n - 1] == hashes.last());
    }
    assert(!link_holds(genesis, h2, p2, n));
}

} // verus!
