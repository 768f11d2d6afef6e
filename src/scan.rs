use vstd::prelude::*;
use crate::pattern::{Pattern, regex_matches};

verus! {

/// One matching line: its 1-based number and its text without the line
/// terminator.
#[derive(Debug, Clone, PartialEq, Eq)]
pub struct MatchLine {
    pub line_number: usize,
    pub text: String,
}

impl View for MatchLine {
    type V = (nat, Seq<char>);

    open spec fn view(&self) -> (nat, Seq<char>) {
        (self.line_number as nat, self.text@)
    }
}

/// The matches of one file, in ascending line order. A well-formed result
/// has at least one match: files without matches give no result.
#[derive(Debug, Clone, PartialEq, Eq)]
pub struct FileResult {
    pub path: String,
    pub matches: Vec<MatchLine>,
}

impl View for FileResult {
    type V = (Seq<char>, Seq<(nat, Seq<char>)>);

    open spec fn view(&self) -> (Seq<char>, Seq<(nat, Seq<char>)>) {
        (self.path@, match_views(self.matches@))
    }
}

impl FileResult {
    pub open spec fn wf(&self) -> bool {
        self.matches@.len() > 0
    }
}

pub open spec fn match_views(ms: Seq<MatchLine>) -> Seq<(nat, Seq<char>)> {
    ms.map_values(|m: MatchLine| m@)
}

pub open spec fn line_views(lines: Seq<String>) -> Seq<Seq<char>> {
    lines.map_values(|s: String| s@)
}

/// The lines of `lines` that `pat` matches, each with its 1-based number,
/// in read order.
pub open spec fn hits(pat: Seq<char>, lines: Seq<Seq<char>>) -> Seq<(nat, Seq<char>)>
    decreases lines.len(),
{
    if lines.len() == 0 {
        seq![]
    } else {
        let before = hits(pat, lines.drop_last());
        if regex_matches(pat, lines.last()) {
            before.push((lines.len(), lines.last()))
        } else {
            before
        }
    }
}

/// What scanning a readable file gives: nothing when no line matches, else
/// the path with its matches.
pub open spec fn scan_model(pat: Seq<char>, path: Seq<char>, lines: Seq<Seq<char>>) -> Option<
    (Seq<char>, Seq<(nat, Seq<char>)>),
> {
    if hits(pat, lines).len() == 0 {
        None
    } else {
        Some((path, hits(pat, lines)))
    }
}

pub open spec fn result_view(r: Option<FileResult>) -> Option<(Seq<char>, Seq<(nat, Seq<char>)>)> {
    match r {
        Some(f) => Some(f@),
        None => None,
    }
}

/// Scans a file one line at a time, keeping only the matching lines, so that
/// a file is never held whole.
pub struct LineScanner {
    count: usize,
    matches: Vec<MatchLine>,
    pat: Ghost<Seq<char>>,
    seen: Ghost<Seq<Seq<char>>>,
}

impl LineScanner {
    /// The text of the pattern this scanner applies.
    pub closed spec fn pattern_text(&self) -> Seq<char> {
        self.pat@
    }

    /// The lines fed so far, in order.
    pub closed spec fn seen(&self) -> Seq<Seq<char>> {
        self.seen@
    }

    pub closed spec fn wf(&self) -> bool {
        &&& self.count as nat == self.seen@.len()
        &&& match_views(self.matches@) == hits(self.pat@, self.seen@)
    }

    pub fn new(p: &Pattern) -> (r: LineScanner)
        ensures
            r.wf(),
            r.pattern_text() == p@,
            r.seen() == Seq::<Seq<char>>::empty(),
    {
        let r = LineScanner {
            count: 0,
            matches: Vec::new(),
            pat: Ghost(p@),
            seen: Ghost(Seq::empty()),
        };
        assert(match_views(r.matches@) =~= hits(p@, Seq::empty()));
        r
    }

    /// How many lines have been fed.
    pub fn line_count(&self) -> (r: usize)
        requires
            self.wf(),
        ensures
            r as nat == self.seen().len(),
    {
        self.count
    }

    /// Feeds the next line of the file, its terminator removed.
    pub fn push_line(&mut self, p: &Pattern, line: String)
        requires
            old(self).wf(),
            p@ == old(self).pattern_text(),
            old(self).seen().len() < usize::MAX,
        ensures
            final(self).wf(),
            final(self).pattern_text() == old(self).pattern_text(),
            final(self).seen() == old(self).seen().push(line@),
    {
        let ghost l = line@;
        let ghost before = self.seen@;
        let n: usize = self.count + 1;
        if p.matches(line.as_str()) {
            self.matches.push(MatchLine { line_number: n, text: line });
        }
        self.count = n;
        self.seen = Ghost(before.push(l));
        proof {
            assert(self.seen@.drop_last() =~= before);
            assert(match_views(self.matches@) =~= hits(self.pat@, self.seen@));
        }
    }

    /// Ends the scan of the file at `path`: no result when no line matched.
    pub fn finish(self, path: String) -> (r: Option<FileResult>)
        requires
            self.wf(),
        ensures
            result_view(r) == scan_model(self.pattern_text(), path@, self.seen()),
            r matches Some(f) ==> f.wf(),
    {
        if self.matches.len() == 0 {
            None
        } else {
            Some(FileResult { path, matches: self.matches })
        }
    }
}

/// Scans the lines of a whole file, given in order without terminators.
pub fn scan_lines(p: &Pattern, path: String, lines: &Vec<String>) -> (r: Option<FileResult>)
    ensures
        result_view(r) == scan_model(p@, path@, line_views(lines@)),
        r matches Some(f) ==> f.wf(),
{
    let mut sc = LineScanner::new(p);
    let ghost all = line_views(lines@);
    let mut i: usize = 0;
    while i < lines.len()
        invariant
            sc.wf(),
            sc.pattern_text() == p@,
            i <= lines@.len(),
            all == line_views(lines@),
            sc.seen() == all.take(i as int),
        decreases lines.len() - i,
    {
        sc.push_line(p, lines[i].clone());
        i = i + 1;
        assert(sc.seen() =~= all.take(i as int));
    }
    assert(all.take(i as int) =~= all);
    sc.finish(path)
}

} // verus!
