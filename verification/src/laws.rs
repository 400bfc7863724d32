use crate::dirsize::contrib_of;
use crate::dirsize::count_resolved;
use crate::dirsize::errors_of;
use crate::dirsize::record_seq;
use crate::dirsize::resolved_one;
use crate::dirsize::sum_contribs;
use crate::dirsize::EntryOutcome;
use vstd::arithmetic::div_mod::lemma_div_basics_2;
use vstd::prelude::*;
use vstd::seq_lib::lemma_multiset_commutative;

verus! {

/// Removing one outcome from a sequence takes away exactly that outcome's
/// contribution, its file-count share, and its error record.
proof fn lemma_totals_remove(s: Seq<EntryOutcome>, i: int)
    requires
        0 <= i < s.len(),
    ensures
        sum_contribs(s.remove(i)) == sum_contribs(s) - contrib_of(s[i]),
        count_resolved(s.remove(i)) == count_resolved(s) - resolved_one(s[i]),
        errors_of(s.remove(i)).to_multiset().add(record_seq(s[i]).to_multiset()) == errors_of(
            s,
        ).to_multiset(),
    decreases s.len(),
{
    broadcast use vstd::multiset::group_multiset_axioms;

    if i == s.len() - 1 {
        assert(s.remove(i) =~= s.drop_last());
        lemma_multiset_commutative(errors_of(s.drop_last()), record_seq(s.last()));
        assert(errors_of(s.remove(i)).to_multiset().add(record_seq(s[i]).to_multiset())
            =~= errors_of(s).to_multiset());
    } else {
        let t = s.remove(i);
        assert(t.drop_last() =~= s.drop_last().remove(i));
        assert(t.last() == s.last());
        lemma_totals_remove(s.drop_last(), i);
        lemma_multiset_commutative(errors_of(t.drop_last()), record_seq(t.last()));
        lemma_multiset_commutative(errors_of(s.drop_last()), record_seq(s.last()));
        assert(errors_of(t).to_multiset().add(record_seq(s[i]).to_multiset()) =~= errors_of(
            s,
        ).to_multiset());
    }
}

/// LAW: the aggregate result does not depend on the order in which worker
/// outcomes are folded in. Two traversals that produce the same collection
/// of per-entry outcomes — whether one worker produced them in sequence or
/// many workers interleaved them arbitrarily — have the same total adjusted
/// size, the same file count, and the same collection of error records (the
/// records themselves being unordered).
pub proof fn lemma_aggregation_order_independent(s1: Seq<EntryOutcome>, s2: Seq<EntryOutcome>)
    requires
        s1.to_multiset() == s2.to_multiset(),
    ensures
        sum_contribs(s1) == sum_contribs(s2),
        count_resolved(s1) == count_resolved(s2),
        errors_of(s1).to_multiset() == errors_of(s2).to_multiset(),
    decreases s1.len(),
{
    broadcast use vstd::seq_lib::group_to_multiset_ensures;
    broadcast use vstd::multiset::group_multiset_axioms;

    if s1.len() == 0 {
        assert(s2.to_multiset().len() == 0);
        assert(s2.len() == 0);
    } else {
        let x = s1.last();
        let dl = s1.drop_last();
        assert(dl.push(x) =~= s1);
        assert(dl.push(x).to_multiset() =~= dl.to_multiset().insert(x));
        assert(s1.contains(x));
        assert(s2.to_multiset().count(x) > 0);
        assert(s2.contains(x));
        let j = choose|j: int| 0 <= j < s2.len() && s2[j] == x;
        let s2r = s2.remove(j);
        assert(s2r.to_multiset() == s2.to_multiset().remove(x));
        assert(dl.to_multiset() =~= s2r.to_multiset());
        lemma_aggregation_order_independent(dl, s2r);
        lemma_totals_remove(s2, j);
        lemma_multiset_commutative(errors_of(dl), record_seq(x));
        assert(errors_of(s1).to_multiset() =~= errors_of(s2).to_multiset());
    }
}

/// LAW: the error collection carries exactly one record per failed entry —
/// every outcome either counts as a resolved file or leaves exactly one
/// record, so no failure is ever dropped or duplicated.
pub proof fn lemma_one_record_per_failure(s: Seq<EntryOutcome>)
    ensures
        errors_of(s).len() == s.len() - count_resolved(s),
    decreases s.len(),
{
    if s.len() > 0 {
        lemma_one_record_per_failure(s.drop_last());
    }
}

/// LAW: a file whose hard-link count is one contributes exactly its raw
/// byte length to the total — the hard-link adjustment only ever divides
/// shared data, never a file that nothing else links to.
pub proof fn lemma_single_link_full_contribution(path: String, len: u64)
    ensures
        contrib_of(EntryOutcome::Resolved { path, len, nlink: 1 }) == len,
{
    lemma_div_basics_2(len as int);
}

} // verus!
