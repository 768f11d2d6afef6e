use vstd::prelude::*;
use crate::gather::gather_results;
use crate::laws::{file_outcomes, search_output};
use crate::pattern::Pattern;
use crate::report::render;
use crate::scan::{FileResult, line_views, scan_lines};

verus! {

pub open spec fn file_views(files: Seq<(String, Vec<String>)>) -> Seq<
    (Seq<char>, Seq<Seq<char>>),
> {
    files.map_values(|f: (String, Vec<String>)| (f.0@, line_views(f.1@)))
}

/// Searches files that are already read, each given as its path and its
/// lines in order, and returns the text of the report.
pub fn search_lines(p: &Pattern, files: &Vec<(String, Vec<String>)>) -> (r: String)
    ensures
        r@ == search_output(p@, file_views(files@)),
{
    let ghost fv = file_views(files@);
    let mut outcomes: Vec<Option<FileResult>> = Vec::new();
    let mut i: usize = 0;
    while i < files.len()
        invariant
            i <= files@.len(),
            fv == file_views(files@),
            crate::gather::outcome_views(outcomes@) == file_outcomes(p@, fv.take(i as int)),
        decreases files.len() - i,
    {
        let f = &files[i];
        let path = String::from_str(f.0.as_str());
        let o = scan_lines(p, path, &f.1);
        let ghost before = outcomes@;
        outcomes.push(o);
        assert(fv[i as int] == (f.0@, line_views(f.1@)));
        assert(file_outcomes(p@, fv.take(i + 1)) =~= file_outcomes(p@, fv.take(i as int)).push(
            crate::scan::result_view(o),
        ));
        assert(crate::gather::outcome_views(outcomes@) =~= crate::gather::outcome_views(before).push(
            crate::scan::result_view(o),
        ));
        i = i + 1;
    }
    assert(fv.take(i as int) =~= fv);
    let results = gather_results(outcomes);
    render(&results)
}

} // verus!
