//! Run-level concerns: the preflight check on the input paths, and the
//! aggregation of per-file reports into run totals. Files are optimized
//! independently, so the totals are proved not to depend on the order in
//! which workers finish.

use vstd::prelude::*;

use crate::task::TaskReport;

verus! {

/// Sum of the reports' original sizes.
pub open spec fn sum_original(s: Seq<TaskReport>) -> int
    decreases s.len(),
{
    if s.len() == 0 {
        0
    } else {
        sum_original(s.drop_last()) + s.last().original_size
    }
}

/// Sum of the reports' final sizes.
pub open spec fn sum_final(s: Seq<TaskReport>) -> int
    decreases s.len(),
{
    if s.len() == 0 {
        0
    } else {
        sum_final(s.drop_last()) + s.last().final_size
    }
}

/// Totals over one whole run.
#[derive(Clone, Copy, Debug, PartialEq, Eq, Structural)]
pub struct RunTotals {
    /// Number of files processed.
    pub files: u64,
    /// Total size of all files before the run.
    pub total_before: u64,
    /// Total size of all files after the run.
    pub total_after: u64,
}

/// Aggregate the per-file reports after every worker has joined. `None`
/// exactly when a total does not fit the totals' width.
pub fn aggregate(reports: &Vec<TaskReport>) -> (r: Option<RunTotals>)
    ensures
        match r {
            Some(t) => sum_original(reports@) <= u64::MAX && sum_final(reports@) <= u64::MAX
                && t.files == reports@.len() && t.total_before == sum_original(reports@)
                && t.total_after == sum_final(reports@),
            None => sum_original(reports@) > u64::MAX || sum_final(reports@) > u64::MAX,
        },
{
    let mut before: u128 = 0;
    let mut after: u128 = 0;
    let mut i: usize = 0;
    while i < reports.len()
        invariant
            0 <= i <= reports@.len(),
            before == sum_original(reports@.subrange(0, i as int)),
            after == sum_final(reports@.subrange(0, i as int)),
            before <= (i as int) * (u64::MAX as int),
            after <= (i as int) * (u64::MAX as int),
        decreases reports@.len() - i,
    {
        let rep = reports[i];
        proof {
            assert(reports@.subrange(0, i + 1 as int).drop_last() =~= reports@.subrange(
                0,
                i as int,
            ));
            assert(reports@.subrange(0, i + 1 as int).last() == reports@[i as int]);
        }
        before = before + (rep.original_size as u128);
        after = after + (rep.final_size as u128);
        i += 1;
    }
    proof {
        assert(reports@.subrange(0, reports@.len() as int) =~= reports@);
    }
    if before <= (u64::MAX as u128) && after <= (u64::MAX as u128) {
        Some(
            RunTotals {
                files: reports.len() as u64,
                total_before: before as u64,
                total_after: after as u64,
            },
        )
    } else {
        None
    }
}

/// Run-level monotonic size: when no file grew, the run's total after is at
/// most its total before.
pub proof fn lemma_totals_monotonic(s: Seq<TaskReport>)
    requires
        forall|i: int|
            0 <= i < s.len() ==> (#[trigger] s[i]).final_size <= s[i].original_size,
    ensures
        sum_final(s) <= sum_original(s),
    decreases s.len(),
{
    if s.len() > 0 {
        let t = s.drop_last();
        assert(forall|i: int| 0 <= i < t.len() ==> t[i] == s[i]);
        lemma_totals_monotonic(t);
        assert(s.last() == s[s.len() - 1]);
    }
}

proof fn lemma_sum_remove(s: Seq<TaskReport>, k: int)
    requires
        0 <= k < s.len(),
    ensures
        sum_original(s) == sum_original(s.remove(k)) + s[k].original_size,
        sum_final(s) == sum_final(s.remove(k)) + s[k].final_size,
    decreases s.len(),
{
    if k == s.len() - 1 {
        assert(s.remove(k) =~= s.drop_last());
    } else {
        let t = s.drop_last();
        lemma_sum_remove(t, k);
        assert(s.remove(k).drop_last() =~= t.remove(k));
        assert(s.remove(k).last() == s.last());
        assert(t[k] == s[k]);
    }
}

/// Independence under concurrency: the run totals are a function of the
/// collection of per-file reports alone. Since each file's report depends
/// only on that file's bytes and its own engines' outputs, any completion
/// order — any permutation, whatever the worker-pool size — yields the same
/// totals.
pub proof fn lemma_totals_order_independent(s1: Seq<TaskReport>, s2: Seq<TaskReport>)
    requires
        s1.to_multiset() == s2.to_multiset(),
    ensures
        sum_original(s1) == sum_original(s2),
        sum_final(s1) == sum_final(s2),
    decreases s1.len(),
{
    broadcast use vstd::seq_lib::group_to_multiset_ensures;

    if s1.len() == 0 {
        assert(s2.to_multiset().len() == 0);
        assert(s2.len() == 0);
    } else {
        let x = s1.last();
        assert(s1[s1.len() - 1] == x);
        assert(s1.contains(x));
        assert(s2.to_multiset().count(x) > 0);
        assert(s2.contains(x));
        let k = choose|k: int| 0 <= k < s2.len() && s2[k] == x;
        assert(s1.drop_last() =~= s1.remove(s1.len() - 1));
        assert(s1.remove(s1.len() - 1).to_multiset() =~= s1.to_multiset().remove(x));
        assert(s2.remove(k).to_multiset() =~= s2.to_multiset().remove(x));
        lemma_totals_order_independent(s1.drop_last(), s2.remove(k));
        lemma_sum_remove(s2, k);
    }
}

/// Whether some index of `r` holds the value `t`.
pub open spec fn holds_index(r: Seq<usize>, t: int) -> bool {
    exists|j: int| 0 <= j < r.len() && r[j] == t
}

/// The preflight check on the input paths: given one existence flag per
/// input path, the indices of the paths that do not exist, in increasing
/// order. A run aborts before optimizing anything when this is non-empty.
pub fn invalid_path_indices(exists_flags: &Vec<bool>) -> (r: Vec<usize>)
    ensures
        forall|j: int|
            0 <= j < r@.len() ==> r@[j] < exists_flags@.len() && !exists_flags@[r@[j] as int],
        forall|t: int|
            0 <= t < exists_flags@.len() && !exists_flags@[t] ==> holds_index(r@, t),
        forall|j1: int, j2: int| 0 <= j1 < j2 < r@.len() ==> r@[j1] < r@[j2],
{
    let mut r: Vec<usize> = Vec::new();
    let mut i: usize = 0;
    while i < exists_flags.len()
        invariant
            0 <= i <= exists_flags@.len(),
            forall|j: int| 0 <= j < r@.len() ==> r@[j] < i && !exists_flags@[r@[j] as int],
            forall|t: int| 0 <= t < i && !exists_flags@[t] ==> holds_index(r@, t),
            forall|j1: int, j2: int| 0 <= j1 < j2 < r@.len() ==> r@[j1] < r@[j2],
        decreases exists_flags@.len() - i,
    {
        if !exists_flags[i] {
            let ghost old_r = r@;
            r.push(i);
            proof {
                assert(r@[r@.len() - 1] == i);
                assert(holds_index(r@, i as int));
                assert forall|t: int| 0 <= t < i && !exists_flags@[t] implies holds_index(
                    r@,
                    t,
                ) by {
                    let j = choose|j: int| 0 <= j < old_r.len() && old_r[j] == t;
                    assert(r@[j] == t);
                }
            }
        }
        i += 1;
    }
    r
}

/// What the external size formatter renders for a byte count; the rendering
/// is a function of the count alone.
pub uninterp spec fn human_size_of(n: u64) -> Seq<char>;

/// Relies on humansize::format_size with the conventional options (a
/// 1024-byte kilo shown with decimal unit names): the rendering of a byte
/// count depends on the count alone.
#[verifier::external_body]
fn format_size_conventional(n: u64) -> (r: String)
    ensures
        r@ == human_size_of(n),
{
    humansize::format_size(n, humansize::WINDOWS)
}

impl RunTotals {
    /// Human-readable renderings of the run's total size before and after,
    /// from the external size formatter.
    pub fn human_summary(&self) -> (r: (String, String))
        ensures
            r.0@ == human_size_of(self.total_before),
            r.1@ == human_size_of(self.total_after),
    {
        (format_size_conventional(self.total_before), format_size_conventional(self.total_after))
    }
}

} // verus!
