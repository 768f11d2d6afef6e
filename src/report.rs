use vstd::prelude::*;
use crate::gather::result_views;
use crate::scan::{FileResult, MatchLine, match_views};

verus! {

/// Unicode's White_Space property, the whitespace that is trimmed from the
/// end of a reported line.
pub open spec fn is_white_space(c: char) -> bool {
    let u = c as u32;
    (0x9 <= u <= 0xd) || u == 0x20 || u == 0x85 || u == 0xa0 || u == 0x1680 || (0x2000 <= u
        <= 0x200a) || u == 0x2028 || u == 0x2029 || u == 0x202f || u == 0x205f || u == 0x3000
}

/// `s` without its trailing whitespace.
pub open spec fn trimmed_end(s: Seq<char>) -> Seq<char>
    decreases s.len(),
{
    if s.len() > 0 && is_white_space(s.last()) {
        trimmed_end(s.drop_last())
    } else {
        s
    }
}

pub open spec fn digit_char(d: nat) -> char {
    if d == 0 {
        '0'
    } else if d == 1 {
        '1'
    } else if d == 2 {
        '2'
    } else if d == 3 {
        '3'
    } else if d == 4 {
        '4'
    } else if d == 5 {
        '5'
    } else if d == 6 {
        '6'
    } else if d == 7 {
        '7'
    } else if d == 8 {
        '8'
    } else {
        '9'
    }
}

/// The decimal digits of `n`, without leading zeros.
pub open spec fn decimal(n: nat) -> Seq<char>
    decreases n,
{
    if n < 10 {
        seq![digit_char(n)]
    } else {
        decimal(n / 10) + seq![digit_char(n % 10)]
    }
}

/// The output line of one match: indented, its number, a colon, and its
/// text without trailing whitespace.
pub open spec fn match_text(m: (nat, Seq<char>)) -> Seq<char> {
    seq![' ', ' '] + decimal(m.0) + seq![':', ' '] + trimmed_end(m.1) + seq!['\n']
}

pub open spec fn matches_text(ms: Seq<(nat, Seq<char>)>) -> Seq<char>
    decreases ms.len(),
{
    if ms.len() == 0 {
        seq![]
    } else {
        matches_text(ms.drop_last()) + match_text(ms.last())
    }
}

/// The output of one file: its path and a colon on a line, then one line
/// per match.
pub open spec fn file_text(f: (Seq<char>, Seq<(nat, Seq<char>)>)) -> Seq<char> {
    f.0 + seq![':', '\n'] + matches_text(f.1)
}

/// The whole output: the files one after the other, nothing else.
pub open spec fn report_text(rs: Seq<(Seq<char>, Seq<(nat, Seq<char>)>)>) -> Seq<char>
    decreases rs.len(),
{
    if rs.len() == 0 {
        seq![]
    } else {
        report_text(rs.drop_last()) + file_text(rs.last())
    }
}

/// Whether `c` has Unicode's White_Space property.
pub fn is_white_space_char(c: char) -> (r: bool)
    ensures
        r == is_white_space(c),
{
    let u = c as u32;
    (0x9 <= u && u <= 0xd) || u == 0x20 || u == 0x85 || u == 0xa0 || u == 0x1680 || (0x2000 <= u
        && u <= 0x200a) || u == 0x2028 || u == 0x2029 || u == 0x202f || u == 0x205f || u == 0x3000
}

/// `s` without its trailing whitespace.
pub fn trim_end(s: &str) -> (r: &str)
    ensures
        r@ == trimmed_end(s@),
{
    let mut k: usize = s.unicode_len();
    assert(s@.take(k as int) =~= s@);
    while k > 0 && is_white_space_char(s.get_char(k - 1))
        invariant
            k <= s@.len(),
            trimmed_end(s@.take(k as int)) == trimmed_end(s@),
        decreases k,
    {
        assert(s@.take(k as int).drop_last() =~= s@.take(k - 1));
        k = k - 1;
    }
    let r = s.substring_char(0, k);
    assert(r@ =~= s@.take(k as int));
    r
}

fn digit_str(d: usize) -> (r: &'static str)
    requires
        d < 10,
    ensures
        r@ == seq![digit_char(d as nat)],
{
    if d == 0 {
        proof { reveal_strlit("0"); }
        "0"
    } else if d == 1 {
        proof { reveal_strlit("1"); }
        "1"
    } else if d == 2 {
        proof { reveal_strlit("2"); }
        "2"
    } else if d == 3 {
        proof { reveal_strlit("3"); }
        "3"
    } else if d == 4 {
        proof { reveal_strlit("4"); }
        "4"
    } else if d == 5 {
        proof { reveal_strlit("5"); }
        "5"
    } else if d == 6 {
        proof { reveal_strlit("6"); }
        "6"
    } else if d == 7 {
        proof { reveal_strlit("7"); }
        "7"
    } else if d == 8 {
        proof { reveal_strlit("8"); }
        "8"
    } else {
        proof { reveal_strlit("9"); }
        "9"
    }
}

/// Appends the decimal digits of `n` to `out`.
pub fn push_decimal(out: &mut String, n: usize)
    ensures
        final(out)@ == old(out)@ + decimal(n as nat),
    decreases n,
{
    if n >= 10 {
        push_decimal(out, n / 10);
    }
    out.append(digit_str(n % 10));
    assert(final(out)@ =~= old(out)@ + decimal(n as nat));
}

/// Appends the output line of one match to `out`.
pub fn push_match_line(out: &mut String, m: &MatchLine)
    ensures
        final(out)@ == old(out)@ + match_text(m@),
{
    proof {
        reveal_strlit("  ");
        reveal_strlit(": ");
        reveal_strlit("\n");
    }
    out.append("  ");
    push_decimal(out, m.line_number);
    out.append(": ");
    out.append(trim_end(m.text.as_str()));
    out.append("\n");
    assert(final(out)@ =~= old(out)@ + match_text(m@));
}

/// Appends the output of one file to `out`.
pub fn push_file(out: &mut String, f: &FileResult)
    ensures
        final(out)@ == old(out)@ + file_text(f@),
{
    proof {
        reveal_strlit(":\n");
    }
    let ghost start = out@;
    out.append(f.path.as_str());
    out.append(":\n");
    let ghost head = out@;
    let ghost ms = match_views(f.matches@);
    let mut i: usize = 0;
    while i < f.matches.len()
        invariant
            i <= f.matches@.len(),
            ms == match_views(f.matches@),
            head == start + f.path@ + seq![':', '\n'],
            out@ == head + matches_text(ms.take(i as int)),
        decreases f.matches.len() - i,
    {
        push_match_line(out, &f.matches[i]);
        assert(ms.take(i + 1).drop_last() =~= ms.take(i as int));
        i = i + 1;
    }
    assert(ms.take(i as int) =~= ms);
    assert(out@ =~= start + file_text(f@));
}

/// Renders the results in order; no results give an empty text.
pub fn render(results: &Vec<FileResult>) -> (r: String)
    ensures
        r@ == report_text(result_views(results@)),
{
    let mut out = String::new();
    let ghost rs = result_views(results@);
    let mut i: usize = 0;
    while i < results.len()
        invariant
            i <= results@.len(),
            rs == result_views(results@),
            out@ == report_text(rs.take(i as int)),
        decreases results.len() - i,
    {
        push_file(&mut out, &results[i]);
        assert(rs.take(i + 1).drop_last() =~= rs.take(i as int));
        i = i + 1;
    }
    assert(rs.take(i as int) =~= rs);
    out
}

} // verus!
