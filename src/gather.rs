use vstd::prelude::*;
use crate::scan::{FileResult, result_view};

verus! {

pub open spec fn outcome_views(outs: Seq<Option<FileResult>>) -> Seq<
    Option<(Seq<char>, Seq<(nat, Seq<char>)>)>,
> {
    outs.map_values(|o: Option<FileResult>| result_view(o))
}

pub open spec fn result_views(rs: Seq<FileResult>) -> Seq<(Seq<char>, Seq<(nat, Seq<char>)>)> {
    rs.map_values(|f: FileResult| f@)
}

pub open spec fn outcome_wf(o: Option<FileResult>) -> bool {
    match o {
        Some(f) => f.wf(),
        None => true,
    }
}

/// The results present among `outs`, in the order of `outs`.
pub open spec fn gathered<T>(outs: Seq<Option<T>>) -> Seq<T>
    decreases outs.len(),
{
    if outs.len() == 0 {
        seq![]
    } else {
        let before = gathered(outs.drop_last());
        match outs.last() {
            Some(f) => before.push(f),
            None => before,
        }
    }
}

/// Collects the per-file outcomes, indexed by the position of each file in
/// the enumerated list, into the results to report: the files without a
/// result drop out and the others keep their relative order, whatever order
/// the scans finished in.
pub fn gather_results(outcomes: Vec<Option<FileResult>>) -> (r: Vec<FileResult>)
    ensures
        result_views(r@) == gathered(outcome_views(outcomes@)),
        (forall|i: int| 0 <= i < outcomes@.len() ==> outcome_wf(#[trigger] outcomes@[i])) ==> (
        forall|j: int| 0 <= j < r@.len() ==> (#[trigger] r@[j]).wf()),
{
    let ghost outs = outcomes@;
    let mut rest = outcomes;
    let mut backwards: Vec<Option<FileResult>> = Vec::new();
    while rest.len() > 0
        invariant
            rest@ + backwards@.reverse() == outs,
        decreases rest.len(),
    {
        let o = rest.pop().unwrap();
        backwards.push(o);
        assert(rest@ + backwards@.reverse() =~= outs);
    }
    assert(backwards@.reverse() =~= outs);
    let mut r: Vec<FileResult> = Vec::new();
    let mut n: usize = 0;
    let total: usize = backwards.len();
    while backwards.len() > 0
        invariant
            n + backwards@.len() == total,
            total == outs.len(),
            forall|k: int| 0 <= k < backwards@.len() ==> backwards@[k] == outs[total - 1 - k],
            result_views(r@) == gathered(outcome_views(outs.take(n as int))),
            (forall|i: int| 0 <= i < outs.len() ==> outcome_wf(#[trigger] outs[i])) ==> (forall|
                j: int,
            | 0 <= j < r@.len() ==> (#[trigger] r@[j]).wf()),
        decreases backwards.len(),
    {
        let o = backwards.pop().unwrap();
        assert(o == outs[n as int]);
        let ghost before = r@;
        proof {
            assert(outcome_views(outs.take(n + 1)).drop_last() =~= outcome_views(outs.take(n as int)));
        }
        match o {
            Some(f) => {
                r.push(f);
                assert(result_views(r@) =~= result_views(before).push(f@));
                assert(forall|j: int| 0 <= j < before.len() ==> r@[j] == before[j]);
            },
            None => {},
        }
        n = n + 1;
    }
    assert(outs.take(n as int) =~= outs);
    r
}

} // verus!
