//! Session aggregation: a pure, order-independent fold of completed scan
//! results into verdict counts.

use vstd::prelude::*;
use vstd::multiset::Multiset;
use crate::model::{ScanResult, ScanResultView, Verdict};

verus! {

/// The verdicts of a sequence of results, in order.
pub open spec fn verdicts_of(s: Seq<ScanResultView>) -> Seq<Verdict> {
    s.map_values(|r: ScanResultView| r.status)
}

/// How many verdicts in `s` equal `v`.
pub open spec fn count_verdict(s: Seq<Verdict>, v: Verdict) -> nat
    decreases s.len(),
{
    if s.len() == 0 {
        0
    } else {
        count_verdict(s.drop_last(), v) + (if s.last() == v {
            1nat
        } else {
            0nat
        })
    }
}

/// The three verdict counts partition any sequence of verdicts: every
/// element is counted under exactly one verdict.
pub proof fn lemma_counts_partition(s: Seq<Verdict>)
    ensures
        count_verdict(s, Verdict::Clean) + count_verdict(s, Verdict::Suspicious) + count_verdict(
            s,
            Verdict::Threat,
        ) == s.len(),
    decreases s.len(),
{
    if s.len() > 0 {
        lemma_counts_partition(s.drop_last());
    }
}

/// Counting a verdict only looks at the multiset of verdicts, never at
/// their order: the count equals the multiset multiplicity.
pub proof fn lemma_count_is_multiset_count(s: Seq<Verdict>, v: Verdict)
    ensures
        count_verdict(s, v) == s.to_multiset().count(v),
    decreases s.len(),
{
    broadcast use vstd::seq_lib::group_to_multiset_ensures;
    broadcast use vstd::multiset::group_multiset_axioms;

    if s.len() == 0 {
        assert(s.to_multiset() =~= Multiset::<Verdict>::empty());
    } else {
        lemma_count_is_multiset_count(s.drop_last(), v);
        assert(s.drop_last().push(s.last()) =~= s);
        assert(s.drop_last().push(s.last()).to_multiset() =~= s.drop_last().to_multiset().insert(
            s.last(),
        ));
    }
}

/// Order independence of the aggregate: two result lists that are
/// permutations of one another (equal as multisets) yield the same count
/// for every verdict, so the session totals never depend on completion
/// order.
pub proof fn lemma_counts_order_independent(a: Seq<Verdict>, b: Seq<Verdict>, v: Verdict)
    requires
        a.to_multiset() == b.to_multiset(),
    ensures
        count_verdict(a, v) == count_verdict(b, v),
{
    lemma_count_is_multiset_count(a, v);
    lemma_count_is_multiset_count(b, v);
}

/// Counts extend one result at a time: appending a result bumps exactly
/// the counter of its verdict.
pub proof fn lemma_count_push(s: Seq<Verdict>, x: Verdict, v: Verdict)
    ensures
        count_verdict(s.push(x), v) == count_verdict(s, v) + (if x == v {
            1nat
        } else {
            0nat
        }),
{
    assert(s.push(x).drop_last() =~= s);
}

/// Pure fold over completed results: returns
/// `(clean_files, suspicious_files, threats_found)`.
pub fn aggregate_counts(results: &Vec<ScanResult>) -> (c: (usize, usize, usize))
    ensures
        c.0 == count_verdict(verdicts_of(results.deep_view()), Verdict::Clean),
        c.1 == count_verdict(verdicts_of(results.deep_view()), Verdict::Suspicious),
        c.2 == count_verdict(verdicts_of(results.deep_view()), Verdict::Threat),
        c.0 + c.1 + c.2 == results.len(),
{
    let ghost all: Seq<Verdict> = verdicts_of(results.deep_view());
    let mut clean: usize = 0;
    let mut suspicious: usize = 0;
    let mut threat: usize = 0;
    let mut i: usize = 0;
    proof {
        assert(verdicts_of(results.deep_view().take(0)) =~= all.take(0));
    }
    while i < results.len()
        invariant
            i <= results.len(),
            all == verdicts_of(results.deep_view()),
            all.len() == results.len(),
            clean == count_verdict(all.take(i as int), Verdict::Clean),
            suspicious == count_verdict(all.take(i as int), Verdict::Suspicious),
            threat == count_verdict(all.take(i as int), Verdict::Threat),
            clean + suspicious + threat == i,
        decreases results.len() - i,
    {
        proof {
            assert(all.take(i + 1) =~= all.take(i as int).push(all[i as int]));
            lemma_count_push(all.take(i as int), all[i as int], Verdict::Clean);
            lemma_count_push(all.take(i as int), all[i as int], Verdict::Suspicious);
            lemma_count_push(all.take(i as int), all[i as int], Verdict::Threat);
        }
        match results[i].status {
            Verdict::Clean => {
                clean = clean + 1;
            },
            Verdict::Suspicious => {
                suspicious = suspicious + 1;
            },
            Verdict::Threat => {
                threat = threat + 1;
            },
        }
        i = i + 1;
    }
    proof {
        assert(all.take(results.len() as int) =~= all);
    }
    (clean, suspicious, threat)
}

} // verus!
