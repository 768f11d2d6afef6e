use vstd::prelude::*;
use crate::gather::gathered;
use crate::pattern::regex_matches;
use crate::report::report_text;
use crate::scan::{hits, scan_model};

verus! {

/// The output of a search over files given as (path, lines) in enumeration
/// order, every file readable.
pub open spec fn search_output(pat: Seq<char>, files: Seq<(Seq<char>, Seq<Seq<char>>)>) -> Seq<
    char,
> {
    report_text(gathered(file_outcomes(pat, files)))
}

/// What scanning each of the files gives, in enumeration order.
pub open spec fn file_outcomes(pat: Seq<char>, files: Seq<(Seq<char>, Seq<Seq<char>>)>) -> Seq<
    Option<(Seq<char>, Seq<(nat, Seq<char>)>)>,
> {
    files.map_values(|f: (Seq<char>, Seq<Seq<char>>)| scan_model(pat, f.0, f.1))
}

/// Running the same search twice over the same files gives the same output.
pub proof fn law_search_is_repeatable(
    pat: Seq<char>,
    first: Seq<(Seq<char>, Seq<Seq<char>>)>,
    second: Seq<(Seq<char>, Seq<Seq<char>>)>,
)
    requires
        first == second,
    ensures
        search_output(pat, first) == search_output(pat, second),
{
}

/// The lines reported for a file are exactly its matching lines: each entry
/// carries the 1-based number of a matching line and that line's text, the
/// numbers ascend strictly, and every matching line is reported.
pub proof fn law_reported_lines_are_the_matching_lines(pat: Seq<char>, lines: Seq<Seq<char>>)
    ensures
        forall|j: int|
            0 <= j < hits(pat, lines).len() ==> {
                let h = #[trigger] hits(pat, lines)[j];
                &&& 1 <= h.0 <= lines.len()
                &&& h.1 == lines[h.0 - 1]
                &&& regex_matches(pat, h.1)
            },
        forall|j: int, k: int|
            0 <= j < k < hits(pat, lines).len() ==> (#[trigger] hits(pat, lines)[j]).0 < (
            #[trigger] hits(pat, lines)[k]).0,
        forall|i: int|
            0 <= i < lines.len() && regex_matches(pat, #[trigger] lines[i]) ==> exists|j: int|
                0 <= j < hits(pat, lines).len() && (#[trigger] hits(pat, lines)[j]).0 == i + 1,
    decreases lines.len(),
{
    if lines.len() > 0 {
        let prev = lines.drop_last();
        law_reported_lines_are_the_matching_lines(pat, prev);
        let hp = hits(pat, prev);
        let h = hits(pat, lines);
        assert(forall|i: int| 0 <= i < prev.len() ==> prev[i] == lines[i]);
        assert forall|i: int|
            0 <= i < lines.len() && regex_matches(pat, #[trigger] lines[i]) implies exists|j: int|
                0 <= j < h.len() && (#[trigger] h[j]).0 == i + 1 by {
            if i < prev.len() {
                assert(regex_matches(pat, prev[i]));
                let j = choose|j: int| 0 <= j < hp.len() && (#[trigger] hp[j]).0 == i + 1;
                assert(h[j] == hp[j]);
            } else {
                assert(h[hp.len() as int] == (lines.len(), lines.last()));
            }
        }
    }
}

/// A search over no files, or over files none of which has a matching
/// line, outputs nothing.
pub proof fn law_no_match_no_output(pat: Seq<char>, files: Seq<(Seq<char>, Seq<Seq<char>>)>)
    requires
        forall|i: int| 0 <= i < files.len() ==> hits(pat, (#[trigger] files[i]).1).len() == 0,
    ensures
        search_output(pat, files) == Seq::<char>::empty(),
    decreases files.len(),
{
    if files.len() > 0 {
        let prev = files.drop_last();
        assert(forall|i: int| 0 <= i < prev.len() ==> prev[i] == files[i]);
        law_no_match_no_output(pat, prev);
        assert(file_outcomes(pat, files).drop_last() =~= file_outcomes(pat, prev));
    }
}

/// Gathering keeps positions: the results of a list of outcomes are those of
/// its first part followed by those of the rest.
pub proof fn law_gather_follows_order<T>(a: Seq<Option<T>>, b: Seq<Option<T>>)
    ensures
        gathered(a + b) == gathered(a) + gathered(b),
    decreases b.len(),
{
    if b.len() == 0 {
        assert(a + b =~= a);
        assert(gathered(b) =~= Seq::<T>::empty());
        assert(gathered(a) + gathered(b) =~= gathered(a));
    } else {
        law_gather_follows_order(a, b.drop_last());
        assert((a + b).drop_last() =~= a + b.drop_last());
        match b.last() {
            Some(x) => {
                assert(gathered(a) + gathered(b.drop_last()).push(x) =~= (gathered(a) + gathered(
                    b.drop_last(),
                )).push(x));
            },
            None => {},
        }
    }
}

/// The report of results is the report of a first part followed by that of
/// the rest.
pub proof fn law_report_follows_order(
    a: Seq<(Seq<char>, Seq<(nat, Seq<char>)>)>,
    b: Seq<(Seq<char>, Seq<(nat, Seq<char>)>)>,
)
    ensures
        report_text(a + b) == report_text(a) + report_text(b),
    decreases b.len(),
{
    if b.len() == 0 {
        assert(a + b =~= a);
        assert(report_text(a) + report_text(b) =~= report_text(a));
    } else {
        law_report_follows_order(a, b.drop_last());
        assert((a + b).drop_last() =~= a + b.drop_last());
        assert(report_text(a + b) =~= report_text(a) + report_text(b));
    }
}

/// The output depends only on the enumeration order of the files: the
/// output over two lists in turn is the output over the first followed by
/// the output over the second, whichever scan finishes first.
pub proof fn law_output_follows_enumeration(
    pat: Seq<char>,
    a: Seq<(Seq<char>, Seq<Seq<char>>)>,
    b: Seq<(Seq<char>, Seq<Seq<char>>)>,
)
    ensures
        search_output(pat, a + b) == search_output(pat, a) + search_output(pat, b),
{
    assert(file_outcomes(pat, a + b) =~= file_outcomes(pat, a) + file_outcomes(pat, b));
    law_gather_follows_order(file_outcomes(pat, a), file_outcomes(pat, b));
    law_report_follows_order(gathered(file_outcomes(pat, a)), gathered(file_outcomes(pat, b)));
}

} // verus!
