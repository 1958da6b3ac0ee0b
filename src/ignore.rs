//! Ignore rules: the paths kept out of outbound patches.
use vstd::prelude::*;

verus! {

/// The name of the ignore file, which is always a rule itself.
pub open spec fn ignore_file_name() -> Seq<char> {
    seq!['.', 'f', 'i', 'g', 'n', 'o', 'r', 'e']
}

/// A line without the carriage return that may end it.
pub open spec fn strip_cr(p: Seq<char>) -> Seq<char> {
    if p.len() > 0 && p.last() == '\r' {
        p.drop_last()
    } else {
        p
    }
}

/// `done` with the line `piece` added, unless the line is empty.
pub open spec fn with_line(done: Seq<Seq<char>>, piece: Seq<char>) -> Seq<Seq<char>> {
    if strip_cr(piece).len() == 0 {
        done
    } else {
        done.push(strip_cr(piece))
    }
}

/// After the first `n` characters of `s`: the non-empty lines that a newline
/// has ended, and where the line in progress starts.
pub open spec fn scan_lines(s: Seq<char>, n: nat) -> (Seq<Seq<char>>, int)
    decreases n,
{
    if n == 0 {
        (seq![], 0)
    } else {
        let (done, start) = scan_lines(s, (n - 1) as nat);
        if s[n - 1] == '\n' {
            (with_line(done, s.subrange(start, n - 1)), n as int)
        } else {
            (done, start)
        }
    }
}

/// The non-empty lines of `s`, each without its line ending.
pub open spec fn non_empty_lines(s: Seq<char>) -> Seq<Seq<char>> {
    let (done, start) = scan_lines(s, s.len());
    with_line(done, s.subrange(start, s.len() as int))
}

/// The ignore rules of a mirror whose ignore file holds `file` (`None` where
/// there is no such file): the file's own name, then one rule per non-empty
/// line of the file.
pub open spec fn rules_of(file: Option<Seq<char>>) -> Seq<Seq<char>> {
    seq![ignore_file_name()] + match file {
        Some(t) => non_empty_lines(t),
        None => seq![],
    }
}

/// The views of a list of strings.
pub open spec fn views(v: Seq<String>) -> Seq<Seq<char>> {
    v.map_values(|x: String| x@)
}

/// Where the line `s[start..end]` is not empty, adds it to `out` without its
/// carriage return.
fn push_line(s: &str, start: usize, end: usize, out: &mut Vec<String>)
    requires
        start <= end <= s@.len(),
    ensures
        views(final(out)@) == with_line(views(old(out)@), s@.subrange(start as int, end as int)),
{
    let piece = s.substring_char(start, end);
    let ghost p = s@.subrange(start as int, end as int);
    let mut stop = end;
    if end > start && s.get_char(end - 1) == '\r' {
        stop = end - 1;
    }
    assert(strip_cr(p) =~= s@.subrange(start as int, stop as int));
    if stop > start {
        let line = s.substring_char(start, stop);
        out.push(line.to_owned());
        assert(views(out@) =~= views(old(out)@).push(strip_cr(p)));
    }
}

/// The non-empty lines of `s`, each without its line ending.
pub fn lines_of(s: &str) -> (r: Vec<String>)
    ensures
        views(r@) == non_empty_lines(s@),
{
    let n = s.unicode_len();
    let mut out: Vec<String> = Vec::new();
    let mut start: usize = 0;
    let mut i: usize = 0;
    assert(views(out@) =~= seq![]);
    while i < n
        invariant
            n == s@.len(),
            i <= n,
            start <= i,
            views(out@) == scan_lines(s@, i as nat).0,
            start == scan_lines(s@, i as nat).1,
        decreases n - i,
    {
        if s.get_char(i) == '\n' {
            push_line(s, start, i, &mut out);
            start = i + 1;
        }
        i = i + 1;
    }
    push_line(s, start, n, &mut out);
    out
}

/// The ignore rules of a mirror whose ignore file holds `file`.
pub fn ignore_rules(file: &Option<String>) -> (r: Vec<String>)
    ensures
        views(r@) == rules_of(
            match file {
                Some(t) => Some(t@),
                None => None,
            },
        ),
{
    let name = crate::IGNORE_FILE;
    proof {
        reveal_strlit(".fignore");
    }
    assert(name@ =~= ignore_file_name());
    let mut out: Vec<String> = Vec::new();
    out.push(name.to_owned());
    assert(views(out@) =~= seq![ignore_file_name()]);
    match file {
        None => {
            assert(rules_of(None) =~= seq![ignore_file_name()]);
        },
        Some(t) => {
            let lines = lines_of(t.as_str());
            let mut k: usize = 0;
            while k < lines.len()
                invariant
                    k <= lines@.len(),
                    views(lines@) == non_empty_lines(t@),
                    views(out@) == seq![ignore_file_name()] + views(lines@).subrange(0, k as int),
                decreases lines@.len() - k,
            {
                let ghost before = out@;
                out.push(lines[k].clone());
                assert(views(out@) =~= views(before).push(lines@[k as int]@));
                assert(views(lines@).subrange(0, k + 1) =~= views(lines@).subrange(0, k as int).push(
                    lines@[k as int]@,
                ));
                k = k + 1;
                assert(views(out@) =~= seq![ignore_file_name()] + views(lines@).subrange(0, k as int));
            }
            assert(views(lines@).subrange(0, k as int) =~= views(lines@));
        },
    }
    out
}

} // verus!
