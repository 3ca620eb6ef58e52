use vstd::prelude::*;

use crate::text::{
    append_range, chars_of, lemma_split_on_nonempty, owned, push_str, ranges_view, split_on,
    split_ranges,
};

verus! {

broadcast use vstd::string::group_string_axioms;

/// Name of the block of a config file that this editor owns.
pub const MANAGED_BLOCK_NAME: &'static str = "theme-generator";

/// The comment line that opens the managed block.
pub open spec fn start_marker() -> Seq<char> {
    "# theme-generator:start"@
}

/// The comment line that closes the managed block.
pub open spec fn end_marker() -> Seq<char> {
    "# theme-generator:end"@
}

/// The line that opens the managed block.
pub fn managed_block_start_marker() -> (r: String)
    ensures
        r@ == start_marker(),
{
    owned("# theme-generator:start")
}

/// The line that closes the managed block.
pub fn managed_block_end_marker() -> (r: String)
    ensures
        r@ == end_marker(),
{
    owned("# theme-generator:end")
}

/// Whether `s` contains a carriage return followed by a line feed.
pub open spec fn has_crlf(s: Seq<char>) -> bool {
    exists|i: int| 0 <= i && i + 1 < s.len() && #[trigger] s[i] == '\r' && s[i + 1] == '\n'
}

/// The line ending that a file uses: CRLF if it holds one anywhere, else LF.
pub open spec fn newline_of(s: Seq<char>) -> Seq<char> {
    if has_crlf(s) {
        "\r\n"@
    } else {
        "\n"@
    }
}

/// `s` without trailing `\r` and `\n` characters.
pub open spec fn trim_end_newlines(s: Seq<char>) -> Seq<char>
    decreases s.len(),
{
    if s.len() > 0 && (s.last() == '\r' || s.last() == '\n') {
        trim_end_newlines(s.drop_last())
    } else {
        s
    }
}

/// `p` without one trailing `\r`.
pub open spec fn strip_cr(p: Seq<char>) -> Seq<char> {
    if p.len() > 0 && p.last() == '\r' {
        p.drop_last()
    } else {
        p
    }
}

/// Number of lines of `s` (`str::lines`: a final line ending adds no empty line).
pub open spec fn line_count(s: Seq<char>) -> int {
    if s.len() == 0 || s.last() == '\n' {
        split_on(s, '\n').len() - 1
    } else {
        split_on(s, '\n').len() as int
    }
}

/// Line `k` of `s` as `str::lines` yields it and with one more trailing `\r` removed.
pub open spec fn normalized_line(s: Seq<char>, k: int) -> Seq<char> {
    let parts = split_on(s, '\n');
    if k < parts.len() - 1 {
        strip_cr(strip_cr(parts[k]))
    } else {
        strip_cr(parts[k])
    }
}

/// The normalized lines of `s`.
pub open spec fn normalized_lines(s: Seq<char>) -> Seq<Seq<char>> {
    Seq::new(line_count(s) as nat, |k: int| normalized_line(s, k))
}

/// The first index `i >= from` with `ls[i] == m`.
pub open spec fn find_line(ls: Seq<Seq<char>>, m: Seq<char>, from: int) -> Option<int>
    decreases ls.len() - from,
{
    if from < 0 || from >= ls.len() {
        None
    } else if ls[from] == m {
        Some(from)
    } else {
        find_line(ls, m, from + 1)
    }
}

/// Each line followed by `nl`.
pub open spec fn join_lines(ls: Seq<Seq<char>>, nl: Seq<char>) -> Seq<char>
    decreases ls.len(),
{
    if ls.len() == 0 {
        Seq::empty()
    } else {
        join_lines(ls.drop_last(), nl) + ls.last() + nl
    }
}

/// The managed block that wraps `rendered`.
pub open spec fn managed_block(existing: Seq<char>, rendered: Seq<char>) -> Seq<char> {
    let nl = newline_of(existing);
    start_marker() + nl + trim_end_newlines(rendered) + nl + end_marker() + nl
}

/// The file contents after putting `rendered` into the managed block of `existing`.
///
/// An empty file becomes the block alone. Where a start marker line is followed by an end
/// marker line, the lines between them (markers included) give way to the block and every
/// other line is kept, with the file's line ending. Otherwise the block is appended after a
/// blank line.
pub open spec fn spec_patch(existing: Seq<char>, rendered: Seq<char>) -> Seq<char> {
    let nl = newline_of(existing);
    let block = managed_block(existing, rendered);
    if existing.len() == 0 {
        block
    } else {
        let ls = normalized_lines(existing);
        let appended = trim_end_newlines(existing) + nl + nl + block;
        match find_line(ls, start_marker(), 0) {
            None => appended,
            Some(si) => match find_line(ls, end_marker(), si + 1) {
                None => appended,
                Some(ei) => join_lines(ls.take(si), nl) + block + join_lines(ls.skip(ei + 1), nl),
            },
        }
    }
}


/// The line ending that `existing` uses (`detect_newline`).
fn detect_newline(v: &Vec<char>) -> (r: &'static str)
    ensures
        r@ == newline_of(v@),
{
    let mut i: usize = 0;
    while i < v.len() && i + 1 < v.len()
        invariant
            forall|j: int| 0 <= j < i && j + 1 < v.len() ==> !(#[trigger] v@[j] == '\r' && v@[j + 1] == '\n'),
        decreases v.len() - i,
    {
        if v[i] == '\r' && v[i + 1] == '\n' {
            return "\r\n";
        }
        i = i + 1;
    }
    "\n"
}

/// The index where `v[..hi]` ends once trailing `\r` and `\n` are removed.
fn trim_end_newlines_index(v: &Vec<char>, hi: usize) -> (r: usize)
    requires
        hi <= v.len(),
    ensures
        r <= hi,
        v@.take(r as int) == trim_end_newlines(v@.take(hi as int)),
    decreases hi,
{
    if hi > 0 && (v[hi - 1] == '\r' || v[hi - 1] == '\n') {
        assert(v@.take(hi as int).drop_last() =~= v@.take(hi - 1));
        trim_end_newlines_index(v, hi - 1)
    } else {
        hi
    }
}

/// Index ranges of the normalized lines of `v`.
fn normalized_line_ranges(v: &Vec<char>) -> (r: Vec<(usize, usize)>)
    ensures
        ranges_view(v@, r@) == normalized_lines(v@),
        forall|k: int| 0 <= k < r.len() ==> (#[trigger] r@[k]).0 <= r@[k].1 && r@[k].1 <= v.len(),
{
    let parts = split_ranges(v, 0, v.len(), '\n');
    proof {
        assert(v@.subrange(0, v@.len() as int) =~= v@);
        lemma_split_on_nonempty(v@, '\n');
    }
    let ghost ps = split_on(v@, '\n');
    let count = if v.len() == 0 || v[v.len() - 1] == '\n' {
        parts.len() - 1
    } else {
        parts.len()
    };
    let mut out: Vec<(usize, usize)> = Vec::new();
    let mut k: usize = 0;
    while k < count
        invariant
            k <= count,
            count == line_count(v@),
            count <= parts.len(),
            ps == split_on(v@, '\n'),
            ranges_view(v@, parts@) == ps,
            forall|j: int| 0 <= j < parts.len() ==> (#[trigger] parts@[j]).0 <= parts@[j].1 && parts@[j].1 <= v.len(),
            ranges_view(v@, out@) == normalized_lines(v@).take(k as int),
            forall|j: int| 0 <= j < out.len() ==> (#[trigger] out@[j]).0 <= out@[j].1 && out@[j].1 <= v.len(),
        decreases count - k,
    {
        let (a, b) = parts[k];
        assert(ps[k as int] == v@.subrange(a as int, b as int));
        let mut e = b;
        if k + 1 < parts.len() && e > a && v[e - 1] == '\r' {
            e = e - 1;
        }
        proof {
            let p = v@.subrange(a as int, b as int);
            if k + 1 < parts.len() {
                if b > a && v@[b - 1] == '\r' {
                    assert(p.last() == v@[b - 1]);
                    assert(p.drop_last() =~= v@.subrange(a as int, e as int));
                } else if b > a {
                    assert(p.last() == v@[b - 1]);
                }
            }
            assert(strip_cr(p) == v@.subrange(a as int, e as int) || k + 1 >= parts.len());
        }
        let mut f = e;
        if f > a && v[f - 1] == '\r' {
            f = f - 1;
        }
        proof {
            let q = v@.subrange(a as int, e as int);
            if e > a {
                assert(q.last() == v@[e - 1]);
                if v@[e - 1] == '\r' {
                    assert(q.drop_last() =~= v@.subrange(a as int, f as int));
                }
            }
            assert(strip_cr(q) == v@.subrange(a as int, f as int));
            if k + 1 >= parts.len() {
                assert(e == b);
            }
            assert(normalized_line(v@, k as int) == v@.subrange(a as int, f as int));
        }
        let ghost before = out@;
        out.push((a, f));
        assert(ranges_view(v@, out@) =~= ranges_view(v@, before).push(v@.subrange(a as int, f as int)));
        assert(normalized_lines(v@).take(k + 1) =~= normalized_lines(v@).take(k as int).push(
            normalized_line(v@, k as int),
        ));
        k = k + 1;
    }
    assert(normalized_lines(v@).take(count as int) =~= normalized_lines(v@));
    assert(forall|j: int| 0 <= j < out.len() ==> (#[trigger] out@[j]).0 <= out@[j].1 && out@[j].1 <= v.len());
    out
}

/// The first line index `i >= from` whose normalized text is `m`.
fn find_line_exec(v: &Vec<char>, lines: &Vec<(usize, usize)>, m: &Vec<char>, from: usize) -> (r:
    Option<usize>)
    requires
        from <= lines.len(),
        forall|k: int| 0 <= k < lines.len() ==> (#[trigger] lines@[k]).0 <= lines@[k].1 && lines@[k].1 <= v.len(),
    ensures
        match r {
            Some(i) => find_line(ranges_view(v@, lines@), m@, from as int) == Some(i as int),
            None => find_line(ranges_view(v@, lines@), m@, from as int) is None,
        },
{
    let ghost ls = ranges_view(v@, lines@);
    let mut i = from;
    while i < lines.len()
        invariant
            from <= i <= lines.len(),
            ls == ranges_view(v@, lines@),
            forall|k: int| 0 <= k < lines.len() ==> (#[trigger] lines@[k]).0 <= lines@[k].1 && lines@[k].1 <= v.len(),
            find_line(ls, m@, from as int) == find_line(ls, m@, i as int),
        decreases lines.len() - i,
    {
        let (a, b) = lines[i];
        if range_eq(v, a, b, m) {
            assert(ls[i as int] == v@.subrange(a as int, b as int));
            return Some(i);
        }
        assert(ls[i as int] == v@.subrange(a as int, b as int));
        i = i + 1;
    }
    None
}

/// Whether `v[lo..hi]` equals `w`.
fn range_eq(v: &Vec<char>, lo: usize, hi: usize, w: &Vec<char>) -> (r: bool)
    requires
        lo <= hi <= v.len(),
    ensures
        r == (v@.subrange(lo as int, hi as int) == w@),
{
    if hi - lo != w.len() {
        return false;
    }
    let mut i: usize = 0;
    while i < w.len()
        invariant
            lo <= hi <= v.len(),
            hi - lo == w.len(),
            i <= w.len(),
            forall|j: int| 0 <= j < i ==> v@[lo + j] == w@[j],
        decreases w.len() - i,
    {
        if v[lo + i] != w[i] {
            assert(v@.subrange(lo as int, hi as int)[i as int] != w@[i as int]);
            return false;
        }
        i = i + 1;
    }
    assert(v@.subrange(lo as int, hi as int) =~= w@);
    true
}

/// Appends the lines `lines[lo..hi]` of `v` to `out`, each followed by `nl`.
fn append_lines(
    out: &mut String,
    v: &Vec<char>,
    lines: &Vec<(usize, usize)>,
    lo: usize,
    hi: usize,
    nl: &str,
)
    requires
        lo <= hi <= lines.len(),
        forall|k: int| 0 <= k < lines.len() ==> (#[trigger] lines@[k]).0 <= lines@[k].1 && lines@[k].1 <= v.len(),
    ensures
        final(out)@ == old(out)@ + join_lines(
            ranges_view(v@, lines@).subrange(lo as int, hi as int),
            nl@,
        ),
{
    let ghost start = out@;
    let ghost ls = ranges_view(v@, lines@);
    let mut i = lo;
    assert(ls.subrange(lo as int, lo as int) =~= Seq::<Seq<char>>::empty());
    while i < hi
        invariant
            lo <= i <= hi <= lines.len(),
            ls == ranges_view(v@, lines@),
            forall|k: int| 0 <= k < lines.len() ==> (#[trigger] lines@[k]).0 <= lines@[k].1 && lines@[k].1 <= v.len(),
            out@ == start + join_lines(ls.subrange(lo as int, i as int), nl@),
        decreases hi - i,
    {
        let (a, b) = lines[i];
        append_range(out, v, a, b);
        push_str(out, nl);
        proof {
            let next = ls.subrange(lo as int, i + 1);
            assert(next.drop_last() =~= ls.subrange(lo as int, i as int));
            assert(next.last() == v@.subrange(a as int, b as int));
        }
        i = i + 1;
    }
}

/// Puts `rendered` into the managed block of the file contents `existing`.
///
/// The block is the start marker line, `rendered` without trailing line breaks, and the end
/// marker line, each ended by the line ending that `existing` uses.
pub fn patch_managed_block_contents(existing: &str, rendered: &str) -> (r: String)
    ensures
        r@ == spec_patch(existing@, rendered@),
{
    let v = chars_of(existing);
    let w = chars_of(rendered);
    let newline = detect_newline(&v);
    let start = managed_block_start_marker();
    let end = managed_block_end_marker();
    let body_end = trim_end_newlines_index(&w, w.len());
    assert(w@.take(w@.len() as int) =~= w@);
    let mut block = String::new();
    push_str(&mut block, start.as_str());
    push_str(&mut block, newline);
    append_range(&mut block, &w, 0, body_end);
    assert(w@.subrange(0, body_end as int) =~= w@.take(body_end as int));
    push_str(&mut block, newline);
    push_str(&mut block, end.as_str());
    push_str(&mut block, newline);
    assert(block@ =~= managed_block(v@, w@));
    if v.len() == 0 {
        return block;
    }
    let lines = normalized_line_ranges(&v);
    let start_chars = chars_of(start.as_str());
    let end_chars = chars_of(end.as_str());
    let ghost ls = normalized_lines(v@);
    match find_line_exec(&v, &lines, &start_chars, 0) {
        Some(si) => {
            proof {
                lemma_find_line(ls, start_marker(), 0);
            }
            if si < lines.len() {
                match find_line_exec(&v, &lines, &end_chars, si + 1) {
                    Some(ei) => {
                        let mut out = String::new();
                        append_lines(&mut out, &v, &lines, 0, si, newline);
                        push_str(&mut out, block.as_str());
                        proof {
                            lemma_find_line(ls, end_marker(), si + 1);
                        }
                        append_lines(&mut out, &v, &lines, ei + 1, lines.len(), newline);
                        assert(ls.subrange(0, si as int) =~= ls.take(si as int));
                        assert(ls.subrange(ei + 1, ls.len() as int) =~= ls.skip(ei + 1));
                        assert(out@ =~= join_lines(ls.take(si as int), newline@) + block@
                            + join_lines(ls.skip(ei + 1), newline@));
                        return out;
                    },
                    None => {},
                }
            } else {
                proof {
                    lemma_find_line(ls, start_marker(), 0);
                }
            }
        },
        None => {},
    }
    let keep = trim_end_newlines_index(&v, v.len());
    assert(v@.take(v@.len() as int) =~= v@);
    let mut out = String::new();
    append_range(&mut out, &v, 0, keep);
    assert(v@.subrange(0, keep as int) =~= v@.take(keep as int));
    push_str(&mut out, newline);
    push_str(&mut out, newline);
    push_str(&mut out, block.as_str());
    out
}

pub proof fn lemma_find_line(ls: Seq<Seq<char>>, m: Seq<char>, from: int)
    requires
        0 <= from,
    ensures
        find_line(ls, m, from) matches Some(i) ==> from <= i < ls.len() && ls[i] == m,
    decreases ls.len() - from,
{
    if 0 <= from < ls.len() && ls[from] != m {
        lemma_find_line(ls, m, from + 1);
    }
}


/// Whatever the file held before, the patched contents hold the freshly rendered managed
/// block (markers, rendered body and line endings) as one contiguous piece.
pub proof fn law_patch_contains_rendered_block(existing: Seq<char>, rendered: Seq<char>)
    ensures
        exists|pre: Seq<char>, post: Seq<char>|
            spec_patch(existing, rendered) == pre + managed_block(existing, rendered) + post,
{
    let block = managed_block(existing, rendered);
    let nl = newline_of(existing);
    let out = spec_patch(existing, rendered);
    if existing.len() == 0 {
        assert(out == Seq::<char>::empty() + block + Seq::<char>::empty());
    } else {
        let ls = normalized_lines(existing);
        let pre_app = trim_end_newlines(existing) + nl + nl;
        match find_line(ls, start_marker(), 0) {
            None => {
                assert(out == pre_app + block + Seq::<char>::empty());
            },
            Some(si) => match find_line(ls, end_marker(), si + 1) {
                None => {
                    assert(out == pre_app + block + Seq::<char>::empty());
                },
                Some(ei) => {
                    assert(out == join_lines(ls.take(si), nl) + block + join_lines(
                        ls.skip(ei + 1),
                        nl,
                    ));
                },
            },
        }
    }
}

/// Patching an empty file gives the managed block alone.
pub proof fn law_patch_of_empty_file_is_the_block(rendered: Seq<char>)
    ensures
        spec_patch(Seq::empty(), rendered) == managed_block(Seq::empty(), rendered),
{
}

} // verus!
