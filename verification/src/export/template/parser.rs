use vstd::prelude::*;
use vstd::utf8::encode_utf8;

use crate::text::{
    lemma_split_on_nonempty, ranges_view, split_on, split_ranges,
    append_range, byte_offset, chars_of, has_char, is_whitespace, is_ws, string_from_range, trim,
    trim_bounds,
};

verus! {

broadcast use vstd::string::group_string_axioms;

/// A parsed template: text and placeholders in source order.
#[derive(Debug, Clone, PartialEq, Eq)]
pub struct TemplateDocument {
    pub segments: Vec<TemplateSegment>,
}

/// One piece of a template.
#[derive(Debug, Clone, PartialEq, Eq)]
pub enum TemplateSegment {
    Text(String),
    Placeholder(TemplatePlaceholder),
}

/// A `{{ namespace.key | filter | ... }}` placeholder.
#[derive(Debug, Clone, PartialEq, Eq)]
pub struct TemplatePlaceholder {
    pub path: TemplatePath,
    pub filters: Vec<String>,
}

/// The `namespace.key` part of a placeholder.
#[derive(Debug, Clone, PartialEq, Eq)]
pub struct TemplatePath {
    pub namespace: String,
    pub key: String,
}

/// Why a template could not be parsed.
#[derive(Debug, Clone, PartialEq, Eq)]
pub enum TemplateParseError {
    /// The placeholder text (or its path) that does not have the required shape.
    MalformedPlaceholder(String),
    /// A `{{` that looks like a placeholder but is never closed; `start` is its byte offset.
    UnclosedPlaceholder { start: usize },
}

/// Mathematical model of a placeholder.
pub struct PlaceholderModel {
    pub namespace: Seq<char>,
    pub key: Seq<char>,
    pub filters: Seq<Seq<char>>,
}

/// Mathematical model of a segment.
pub enum SegmentModel {
    Text(Seq<char>),
    Placeholder(PlaceholderModel),
}

/// Mathematical model of a parse error.
pub enum ParseErrorModel {
    Malformed(Seq<char>),
    Unclosed(nat),
}

impl View for TemplatePlaceholder {
    type V = PlaceholderModel;

    open spec fn view(&self) -> PlaceholderModel {
        PlaceholderModel {
            namespace: self.path.namespace@,
            key: self.path.key@,
            filters: self.filters@.map_values(|f: String| f@),
        }
    }
}

impl View for TemplateSegment {
    type V = SegmentModel;

    open spec fn view(&self) -> SegmentModel {
        match self {
            TemplateSegment::Text(t) => SegmentModel::Text(t@),
            TemplateSegment::Placeholder(p) => SegmentModel::Placeholder(p@),
        }
    }
}

impl View for TemplateDocument {
    type V = Seq<SegmentModel>;

    open spec fn view(&self) -> Seq<SegmentModel> {
        segments_view(self.segments@)
    }
}

impl View for TemplateParseError {
    type V = ParseErrorModel;

    open spec fn view(&self) -> ParseErrorModel {
        match self {
            TemplateParseError::MalformedPlaceholder(raw) => ParseErrorModel::Malformed(raw@),
            TemplateParseError::UnclosedPlaceholder { start } => ParseErrorModel::Unclosed(
                *start as nat,
            ),
        }
    }
}

pub open spec fn segments_view(s: Seq<TemplateSegment>) -> Seq<SegmentModel> {
    s.map_values(|x: TemplateSegment| x@)
}

/// The first index `i >= from` at which `c` occurs twice in a row.
pub open spec fn find_pair(s: Seq<char>, c: char, from: int) -> Option<int>
    decreases s.len() - from,
{
    if from < 0 || from + 1 >= s.len() {
        None
    } else if s[from] == c && s[from + 1] == c {
        Some(from)
    } else {
        find_pair(s, c, from + 1)
    }
}

/// The first index `i >= from` at which `c` occurs.
pub open spec fn find_char(s: Seq<char>, c: char, from: int) -> Option<int>
    decreases s.len() - from,
{
    if from < 0 || from >= s.len() {
        None
    } else if s[from] == c {
        Some(from)
    } else {
        find_char(s, c, from + 1)
    }
}

/// `namespace.key` split at its first dot, both sides trimmed; an error carries `raw`.
pub open spec fn spec_parse_path(raw: Seq<char>) -> Result<(Seq<char>, Seq<char>), Seq<char>> {
    match find_char(raw, '.', 0) {
        None => Err(raw),
        Some(d) => {
            let ns = raw.take(d);
            let key = raw.skip(d + 1);
            if trim(ns).len() == 0 || trim(key).len() == 0 || has_char(ns, '.') || has_char(
                key,
                '.',
            ) {
                Err(raw)
            } else {
                Ok((trim(ns), trim(key)))
            }
        },
    }
}

/// The filters of a placeholder: every `|`-separated part after the first, trimmed.
pub open spec fn spec_filters(raw: Seq<char>) -> Seq<Seq<char>> {
    split_on(raw, '|').skip(1).map_values(|p: Seq<char>| trim(p))
}

/// The placeholder that the (trimmed) text between `{{` and `}}` denotes.
pub open spec fn spec_parse_placeholder(raw: Seq<char>) -> Result<PlaceholderModel, Seq<char>> {
    let first = trim(split_on(raw, '|')[0]);
    if first.len() == 0 {
        Err(raw)
    } else {
        match spec_parse_path(first) {
            Err(e) => Err(e),
            Ok(path) => {
                let filters = spec_filters(raw);
                if exists|k: int| 0 <= k < filters.len() && filters[k].len() == 0 {
                    Err(raw)
                } else {
                    Ok(PlaceholderModel { namespace: path.0, key: path.1, filters })
                }
            },
        }
    }
}

/// `t` is the namespace `ns` alone, or `ns` followed by whitespace.
pub open spec fn namespace_prefix(t: Seq<char>, ns: Seq<char>) -> bool {
    t == ns || (t.len() > ns.len() && t.take(ns.len() as int) == ns && is_ws(t[ns.len() as int]))
}

/// Whether the text between braces was meant as a placeholder of this engine.
pub open spec fn looks_like_syntax(raw: Seq<char>) -> bool {
    let t = trim(raw);
    t.len() == 0 || has_char(t, '.') || has_char(t, '|') || namespace_prefix(t, "meta"@)
        || namespace_prefix(t, "token"@) || namespace_prefix(t, "palette"@) || namespace_prefix(
        t,
        "param"@,
    )
}

/// `segs` with the text `t` appended, merged into a trailing text segment.
pub open spec fn push_text(segs: Seq<SegmentModel>, t: Seq<char>) -> Seq<SegmentModel> {
    if t.len() == 0 {
        segs
    } else if segs.len() > 0 && segs.last() is Text {
        segs.update(segs.len() - 1, SegmentModel::Text(segs.last()->Text_0 + t))
    } else {
        segs.push(SegmentModel::Text(t))
    }
}

/// A document never has zero segments: an empty one holds one empty text.
pub open spec fn finish(segs: Seq<SegmentModel>) -> Seq<SegmentModel> {
    if segs.len() == 0 {
        seq![SegmentModel::Text(Seq::<char>::empty())]
    } else {
        segs
    }
}

pub proof fn lemma_find_pair(s: Seq<char>, c: char, from: int)
    requires
        0 <= from,
    ensures
        find_pair(s, c, from) matches Some(i) ==> from <= i && i + 1 < s.len() && s[i] == c && s[i
            + 1] == c,
    decreases s.len() - from,
{
    if from + 1 < s.len() && !(s[from] == c && s[from + 1] == c) {
        lemma_find_pair(s, c, from + 1);
    }
}

pub proof fn lemma_find_char(s: Seq<char>, c: char, from: int)
    requires
        0 <= from,
    ensures
        find_char(s, c, from) matches Some(i) ==> from <= i < s.len() && s[i] == c && forall|j: int|
            from <= j < i ==> s[j] != c,
        find_char(s, c, from) is None ==> forall|j: int| from <= j < s.len() ==> s[j] != c,
    decreases s.len() - from,
{
    if 0 <= from < s.len() && s[from] != c {
        lemma_find_char(s, c, from + 1);
    }
}

/// The parse of `s[cursor..]`, with `segs` already produced.
pub open spec fn parse_from(s: Seq<char>, cursor: int, segs: Seq<SegmentModel>) -> Result<
    Seq<SegmentModel>,
    ParseErrorModel,
>
    decreases s.len() - cursor,
    when 0 <= cursor <= s.len()
{
    match find_pair(s, '{', cursor) {
        None => Ok(finish(push_text(segs, s.subrange(cursor, s.len() as int)))),
        Some(open) => {
            let segs1 = push_text(segs, s.subrange(cursor, open));
            let inner = open + 2;
            match find_pair(s, '}', inner) {
                None => {
                    if looks_like_syntax(s.subrange(inner, s.len() as int)) {
                        Err(ParseErrorModel::Unclosed(encode_utf8(s.take(open)).len()))
                    } else {
                        Ok(finish(push_text(segs1, s.subrange(open, s.len() as int))))
                    }
                },
                Some(close) => {
                    proof {
                        lemma_find_pair(s, '{', cursor);
                        lemma_find_pair(s, '}', inner);
                    }
                    let raw = s.subrange(inner, close);
                    match spec_parse_placeholder(trim(raw)) {
                        Ok(p) => parse_from(
                            s,
                            close + 2,
                            segs1.push(SegmentModel::Placeholder(p)),
                        ),
                        Err(e) => {
                            if looks_like_syntax(raw) {
                                Err(ParseErrorModel::Malformed(e))
                            } else {
                                parse_from(s, close + 2, push_text(segs1, s.subrange(open, close + 2)))
                            }
                        },
                    }
                },
            }
        },
    }
}

/// The parse of a whole template.
pub open spec fn spec_parse_template(s: Seq<char>) -> Result<Seq<SegmentModel>, ParseErrorModel> {
    parse_from(s, 0, Seq::empty())
}


/// Where `c` first occurs twice in a row in `v[from..]`.
fn find_pair_exec(v: &Vec<char>, c: char, from: usize) -> (r: Option<usize>)
    requires
        from <= v.len(),
    ensures
        match r {
            Some(i) => find_pair(v@, c, from as int) == Some(i as int),
            None => find_pair(v@, c, from as int) is None,
        },
{
    let mut i = from;
    while i < v.len() && i + 1 < v.len()
        invariant
            from <= i <= v.len(),
            find_pair(v@, c, from as int) == find_pair(v@, c, i as int),
        decreases v.len() - i,
    {
        if v[i] == c && v[i + 1] == c {
            return Some(i);
        }
        i = i + 1;
    }
    None
}

/// Whether `c` occurs in `v[lo..hi]`.
fn has_char_range(v: &Vec<char>, lo: usize, hi: usize, c: char) -> (r: bool)
    requires
        lo <= hi <= v.len(),
    ensures
        r == has_char(v@.subrange(lo as int, hi as int), c),
{
    let ghost t = v@.subrange(lo as int, hi as int);
    let mut i = lo;
    while i < hi
        invariant
            lo <= i <= hi <= v.len(),
            t == v@.subrange(lo as int, hi as int),
            forall|j: int| lo <= j < i ==> v@[j] != c,
        decreases hi - i,
    {
        if v[i] == c {
            assert(t[i - lo] == c);
            return true;
        }
        i = i + 1;
    }
    assert forall|j: int| 0 <= j < t.len() implies t[j] != c by {
        assert(t[j] == v@[lo + j]);
    }
    false
}

/// Whether `v[lo..hi]` equals `w`.
fn range_eq(v: &Vec<char>, lo: usize, hi: usize, w: &Vec<char>) -> (r: bool)
    requires
        lo <= hi <= v.len(),
    ensures
        r == (v@.subrange(lo as int, hi as int) == w@),
{
    if hi - lo != w.len() {
        return false;
    }
    let mut i: usize = 0;
    while i < w.len()
        invariant
            lo <= hi <= v.len(),
            hi - lo == w.len(),
            i <= w.len(),
            forall|j: int| 0 <= j < i ==> v@[lo + j] == w@[j],
        decreases w.len() - i,
    {
        if v[lo + i] != w[i] {
            assert(v@.subrange(lo as int, hi as int)[i as int] != w@[i as int]);
            return false;
        }
        i = i + 1;
    }
    assert(v@.subrange(lo as int, hi as int) =~= w@);
    true
}

/// Executable form of [`namespace_prefix`] on `v[lo..hi]`.
fn namespace_prefix_exec(v: &Vec<char>, lo: usize, hi: usize, ns: &Vec<char>) -> (r: bool)
    requires
        lo <= hi <= v.len(),
    ensures
        r == namespace_prefix(v@.subrange(lo as int, hi as int), ns@),
{
    let ghost t = v@.subrange(lo as int, hi as int);
    if range_eq(v, lo, hi, ns) {
        return true;
    }
    if hi - lo > ns.len() {
        let m = lo + ns.len();
        let same = range_eq(v, lo, m, ns);
        assert(t.take(ns@.len() as int) =~= v@.subrange(lo as int, m as int));
        assert(t[ns@.len() as int] == v@[m as int]);
        same && is_whitespace(v[m])
    } else {
        false
    }
}

/// Executable form of [`looks_like_syntax`] on `v[lo..hi]`.
fn looks_like_template_syntax(v: &Vec<char>, lo: usize, hi: usize) -> (r: bool)
    requires
        lo <= hi <= v.len(),
    ensures
        r == looks_like_syntax(v@.subrange(lo as int, hi as int)),
{
    let (a, b) = trim_bounds(v, lo, hi);
    if a == b {
        return true;
    }
    if has_char_range(v, a, b, '.') || has_char_range(v, a, b, '|') {
        return true;
    }
    let meta = chars_of("meta");
    let token = chars_of("token");
    let palette = chars_of("palette");
    let param = chars_of("param");
    namespace_prefix_exec(v, a, b, &meta) || namespace_prefix_exec(v, a, b, &token)
        || namespace_prefix_exec(v, a, b, &palette) || namespace_prefix_exec(v, a, b, &param)
}

/// Appends the text `v[lo..hi]` to `segs`, merging it into a trailing text segment.
fn push_text_segment(segs: &mut Vec<TemplateSegment>, v: &Vec<char>, lo: usize, hi: usize)
    requires
        lo <= hi <= v.len(),
    ensures
        segments_view(final(segs)@) == push_text(
            segments_view(old(segs)@),
            v@.subrange(lo as int, hi as int),
        ),
{
    if lo == hi {
        return;
    }
    let n = segs.len();
    if n > 0 {
        let last_is_text = match &segs[n - 1] {
            TemplateSegment::Text(_) => true,
            TemplateSegment::Placeholder(_) => false,
        };
        if last_is_text {
            let ghost before = segs@;
            let last = segs.pop().unwrap();
            match last {
                TemplateSegment::Text(mut t) => {
                    append_range(&mut t, v, lo, hi);
                    segs.push(TemplateSegment::Text(t));
                    assert(segments_view(segs@) =~= push_text(
                        segments_view(before),
                        v@.subrange(lo as int, hi as int),
                    ));
                },
                TemplateSegment::Placeholder(p) => {
                    segs.push(TemplateSegment::Placeholder(p));
                },
            }
            return;
        }
    }
    let ghost before = segs@;
    segs.push(TemplateSegment::Text(string_from_range(v, lo, hi)));
    assert(segments_view(segs@) =~= push_text(
        segments_view(before),
        v@.subrange(lo as int, hi as int),
    ));
}


/// Parses `v[lo..hi]` as `namespace.key`.
fn parse_path(v: &Vec<char>, lo: usize, hi: usize) -> (r: Result<TemplatePath, TemplateParseError>)
    requires
        lo <= hi <= v.len(),
    ensures
        match (r, spec_parse_path(v@.subrange(lo as int, hi as int))) {
            (Ok(p), Ok(m)) => p.namespace@ == m.0 && p.key@ == m.1,
            (Err(e), Err(m)) => e@ == ParseErrorModel::Malformed(m),
            _ => false,
        },
{
    let ghost raw = v@.subrange(lo as int, hi as int);
    let mut d = lo;
    while d < hi && v[d] != '.'
        invariant
            lo <= d <= hi <= v.len(),
            raw == v@.subrange(lo as int, hi as int),
            forall|j: int| lo <= j < d ==> v@[j] != '.',
        decreases hi - d,
    {
        d = d + 1;
    }
    proof {
        lemma_find_char(raw, '.', 0);
        if d < hi {
            assert(raw[d - lo] == '.');
        }
    }
    if d == hi {
        return Err(TemplateParseError::MalformedPlaceholder(string_from_range(v, lo, hi)));
    }
    proof {
        let f = find_char(raw, '.', 0);
        assert(f == Some((d - lo) as int)) by {
            if f is None {
                assert(raw[d - lo] == '.');
            } else {
                let i = f->0;
                if i < d - lo {
                    assert(raw[i] == v@[lo + i]);
                } else if i > d - lo {
                    assert(raw[d - lo] == '.');
                }
            }
        }
        assert(raw.take(d - lo) =~= v@.subrange(lo as int, d as int));
        assert(raw.skip(d - lo + 1) =~= v@.subrange(d + 1, hi as int));
    }
    let (na, nb) = trim_bounds(v, lo, d);
    let (ka, kb) = trim_bounds(v, d + 1, hi);
    let ns_dot = has_char_range(v, lo, d, '.');
    let key_dot = has_char_range(v, d + 1, hi, '.');
    if na == nb || ka == kb || ns_dot || key_dot {
        return Err(TemplateParseError::MalformedPlaceholder(string_from_range(v, lo, hi)));
    }
    Ok(TemplatePath { namespace: string_from_range(v, na, nb), key: string_from_range(v, ka, kb) })
}

/// Parses the trimmed text `v[lo..hi]` found between `{{` and `}}`.
fn parse_placeholder(v: &Vec<char>, lo: usize, hi: usize) -> (r: Result<
    TemplatePlaceholder,
    TemplateParseError,
>)
    requires
        lo <= hi <= v.len(),
    ensures
        match (r, spec_parse_placeholder(v@.subrange(lo as int, hi as int))) {
            (Ok(p), Ok(m)) => p@ == m,
            (Err(e), Err(m)) => e@ == ParseErrorModel::Malformed(m),
            _ => false,
        },
{
    let ghost raw = v@.subrange(lo as int, hi as int);
    let parts = split_ranges(v, lo, hi, '|');
    proof {
        lemma_split_on_nonempty(raw, '|');
    }
    let (p0, p1) = parts[0];
    assert(ranges_view(v@, parts@)[0] == v@.subrange(p0 as int, p1 as int));
    let (fa, fb) = trim_bounds(v, p0, p1);
    if fa == fb {
        return Err(TemplateParseError::MalformedPlaceholder(string_from_range(v, lo, hi)));
    }
    let path = match parse_path(v, fa, fb) {
        Ok(path) => path,
        Err(e) => return Err(e),
    };
    let ghost all = spec_filters(raw);
    let mut filters: Vec<String> = Vec::new();
    let mut k: usize = 1;
    while k < parts.len()
        invariant
            1 <= k <= parts.len(),
            ranges_view(v@, parts@) == split_on(raw, '|'),
            raw == v@.subrange(lo as int, hi as int),
            all == spec_filters(raw),
            all.len() == parts.len() - 1,
            trim(split_on(raw, '|')[0]).len() != 0,
            spec_parse_path(trim(split_on(raw, '|')[0])) matches Ok(m) && path.namespace@ == m.0
                && path.key@ == m.1,
            forall|j: int| 0 <= j < parts.len() ==> lo <= #[trigger] parts@[j].0 <= parts@[j].1 <= hi,
            hi <= v.len(),
            filters@.map_values(|f: String| f@) == all.take(k - 1),
            forall|j: int| 0 <= j < k - 1 ==> all[j].len() != 0,
        decreases parts.len() - k,
    {
        let (a, b) = parts[k];
        assert(ranges_view(v@, parts@)[k as int] == v@.subrange(a as int, b as int));
        assert(all[k - 1] == trim(v@.subrange(a as int, b as int)));
        let (ta, tb) = trim_bounds(v, a, b);
        if ta == tb {
            assert(all[k - 1].len() == 0);
            return Err(TemplateParseError::MalformedPlaceholder(string_from_range(v, lo, hi)));
        }
        let ghost before = filters@;
        let st = string_from_range(v, ta, tb);
        assert(st@ == all[k - 1]);
        filters.push(st);
        assert(filters@.map_values(|f: String| f@) =~= before.map_values(|f: String| f@).push(st@));
        assert(all.take(k as int) =~= all.take(k - 1).push(all[k - 1]));
        k = k + 1;
    }
    assert(all.take(all.len() as int) =~= all);
    let r = TemplatePlaceholder { path, filters };
    assert(r@.filters =~= all);
    Ok(r)
}

/// Parses a template into text and `{{ namespace.key | filter }}` placeholders.
///
/// Double braces whose content does not look like a placeholder of this engine stay
/// literal text; a malformed placeholder, or an unclosed `{{` whose rest looks like one,
/// is an error.
pub fn parse_template(input: &str) -> (r: Result<TemplateDocument, TemplateParseError>)
    requires
        encode_utf8(input@).len() <= usize::MAX,
    ensures
        match (r, spec_parse_template(input@)) {
            (Ok(d), Ok(m)) => d@ == m,
            (Err(e), Err(m)) => e@ == m,
            _ => false,
        },
{
    let v = chars_of(input);
    let mut segments: Vec<TemplateSegment> = Vec::new();
    let mut cursor: usize = 0;
    assert(segments_view(segments@) =~= Seq::<SegmentModel>::empty());
    loop
        invariant
            cursor <= v.len(),
            v@ == input@,
            encode_utf8(v@).len() <= usize::MAX,
            parse_from(v@, cursor as int, segments_view(segments@)) == spec_parse_template(v@),
        ensures
            cursor <= v.len(),
            find_pair(v@, '{', cursor as int) is None,
            parse_from(v@, cursor as int, segments_view(segments@)) == spec_parse_template(v@),
        decreases v.len() - cursor,
    {
        let ghost segs0 = segments_view(segments@);
        let ghost c0 = cursor as int;
        match find_pair_exec(&v, '{', cursor) {
            None => {
                break;
            },
            Some(open) => {
                proof {
                    lemma_find_pair(v@, '{', c0);
                }
                push_text_segment(&mut segments, &v, cursor, open);
                let inner = open + 2;
                match find_pair_exec(&v, '}', inner) {
                    None => {
                        if looks_like_template_syntax(&v, inner, v.len()) {
                            let start = byte_offset(&v, open);
                            return Err(TemplateParseError::UnclosedPlaceholder { start });
                        }
                        push_text_segment(&mut segments, &v, open, v.len());
                        cursor = v.len();
                        assert(v@.subrange(cursor as int, v@.len() as int) =~= Seq::<char>::empty());
                        break;
                    },
                    Some(close) => {
                        proof {
                            lemma_find_pair(v@, '}', inner as int);
                        }
                        let (a, b) = trim_bounds(&v, inner, close);
                        match parse_placeholder(&v, a, b) {
                            Ok(p) => {
                                let ghost before = segments@;
                                segments.push(TemplateSegment::Placeholder(p));
                                assert(segments_view(segments@) =~= segments_view(before).push(
                                    SegmentModel::Placeholder(p@),
                                ));
                            },
                            Err(e) => {
                                if looks_like_template_syntax(&v, inner, close) {
                                    return Err(e);
                                }
                                push_text_segment(&mut segments, &v, open, close + 2);
                            },
                        }
                        cursor = close + 2;
                    },
                }
            },
        }
    }
    push_text_segment(&mut segments, &v, cursor, v.len());
    if segments.len() == 0 {
        let ghost before = segments@;
        segments.push(TemplateSegment::Text(String::new()));
        assert(segments_view(segments@) =~= finish(segments_view(before)));
    }
    Ok(TemplateDocument { segments })
}


/// Every text segment is nonempty and no two text segments are adjacent.
pub open spec fn merged_segments(segs: Seq<SegmentModel>) -> bool {
    &&& forall|i: int| 0 <= i < segs.len() && (#[trigger] segs[i]) is Text ==> segs[i]->Text_0.len() > 0
    &&& forall|i: int|
        0 <= i && i + 1 < segs.len() && (#[trigger] segs[i]) is Text ==> !(segs[i + 1] is Text)
}

/// Whether any segment is a placeholder.
pub open spec fn has_placeholder(segs: Seq<SegmentModel>) -> bool {
    exists|i: int| 0 <= i < segs.len() && (#[trigger] segs[i]) is Placeholder
}

/// The text of all text segments, in order.
pub open spec fn text_of(segs: Seq<SegmentModel>) -> Seq<char>
    decreases segs.len(),
{
    if segs.len() == 0 {
        Seq::empty()
    } else {
        text_of(segs.drop_last()) + match segs.last() {
            SegmentModel::Text(t) => t,
            SegmentModel::Placeholder(_) => Seq::empty(),
        }
    }
}

proof fn lemma_push_text_merged(segs: Seq<SegmentModel>, t: Seq<char>)
    requires
        merged_segments(segs),
    ensures
        merged_segments(push_text(segs, t)),
        push_text(segs, t).len() >= segs.len(),
{
}

proof fn lemma_push_text_placeholders(segs: Seq<SegmentModel>, t: Seq<char>)
    ensures
        has_placeholder(segs) == has_placeholder(push_text(segs, t)),
{
    let r = push_text(segs, t);
    if t.len() > 0 {
        if has_placeholder(segs) {
            let i = choose|i: int| 0 <= i < segs.len() && (#[trigger] segs[i]) is Placeholder;
            assert(r[i] is Placeholder);
        }
        if has_placeholder(r) {
            let i = choose|i: int| 0 <= i < r.len() && (#[trigger] r[i]) is Placeholder;
            assert(segs[i] is Placeholder);
        }
    }
}

proof fn lemma_push_text_text(segs: Seq<SegmentModel>, t: Seq<char>)
    ensures
        text_of(push_text(segs, t)) == text_of(segs) + t,
{
    let r = push_text(segs, t);
    if t.len() == 0 {
        assert(text_of(segs) + t =~= text_of(segs));
    } else if segs.len() > 0 && segs.last() is Text {
        assert(r.drop_last() =~= segs.drop_last());
        assert(text_of(r) =~= text_of(segs) + t);
    } else {
        assert(r.drop_last() =~= segs);
    }
}

proof fn lemma_push_placeholder_merged(segs: Seq<SegmentModel>, p: PlaceholderModel)
    requires
        merged_segments(segs),
    ensures
        merged_segments(segs.push(SegmentModel::Placeholder(p))),
        has_placeholder(segs.push(SegmentModel::Placeholder(p))),
{
    let r = segs.push(SegmentModel::Placeholder(p));
    assert(r[r.len() - 1] is Placeholder);
}

proof fn lemma_parse_from_merged(s: Seq<char>, cursor: int, segs: Seq<SegmentModel>)
    requires
        0 <= cursor <= s.len(),
        merged_segments(segs),
    ensures
        parse_from(s, cursor, segs) matches Ok(d) ==> d.len() >= 1 && (d == seq![
            SegmentModel::Text(Seq::<char>::empty()),
        ] || merged_segments(d)),
    decreases s.len() - cursor,
{
    lemma_find_pair(s, '{', cursor);
    match find_pair(s, '{', cursor) {
        None => {
            lemma_push_text_merged(segs, s.subrange(cursor, s.len() as int));
        },
        Some(open) => {
            let segs1 = push_text(segs, s.subrange(cursor, open));
            lemma_push_text_merged(segs, s.subrange(cursor, open));
            let inner = open + 2;
            lemma_find_pair(s, '}', inner);
            match find_pair(s, '}', inner) {
                None => {
                    lemma_push_text_merged(segs1, s.subrange(open, s.len() as int));
                },
                Some(close) => {
                    let raw = s.subrange(inner, close);
                    match spec_parse_placeholder(trim(raw)) {
                        Ok(p) => {
                            lemma_push_placeholder_merged(segs1, p);
                            lemma_parse_from_merged(
                                s,
                                close + 2,
                                segs1.push(SegmentModel::Placeholder(p)),
                            );
                        },
                        Err(e) => {
                            let t2 = s.subrange(open, close + 2);
                            lemma_push_text_merged(segs1, t2);
                            lemma_parse_from_merged(s, close + 2, push_text(segs1, t2));
                        },
                    }
                },
            }
        },
    }
}

proof fn lemma_parse_from_keeps_placeholders(s: Seq<char>, cursor: int, segs: Seq<SegmentModel>)
    requires
        0 <= cursor <= s.len(),
    ensures
        parse_from(s, cursor, segs) matches Ok(d) ==> (has_placeholder(segs) ==> has_placeholder(
            d,
        )),
    decreases s.len() - cursor,
{
    lemma_find_pair(s, '{', cursor);
    match find_pair(s, '{', cursor) {
        None => {
            lemma_push_text_placeholders(segs, s.subrange(cursor, s.len() as int));
        },
        Some(open) => {
            let segs1 = push_text(segs, s.subrange(cursor, open));
            lemma_push_text_placeholders(segs, s.subrange(cursor, open));
            let inner = open + 2;
            lemma_find_pair(s, '}', inner);
            match find_pair(s, '}', inner) {
                None => {
                    lemma_push_text_placeholders(segs1, s.subrange(open, s.len() as int));
                },
                Some(close) => {
                    let raw = s.subrange(inner, close);
                    match spec_parse_placeholder(trim(raw)) {
                        Ok(p) => {
                            let r = segs1.push(SegmentModel::Placeholder(p));
                            assert(r[r.len() - 1] is Placeholder);
                            lemma_parse_from_keeps_placeholders(s, close + 2, r);
                        },
                        Err(e) => {
                            let t2 = s.subrange(open, close + 2);
                            lemma_push_text_placeholders(segs1, t2);
                            lemma_parse_from_keeps_placeholders(s, close + 2, push_text(segs1, t2));
                        },
                    }
                },
            }
        },
    }
}

proof fn lemma_parse_from_text(s: Seq<char>, cursor: int, segs: Seq<SegmentModel>)
    requires
        0 <= cursor <= s.len(),
    ensures
        parse_from(s, cursor, segs) matches Ok(d) ==> (!has_placeholder(d) ==> text_of(d)
            == text_of(segs) + s.subrange(cursor, s.len() as int)),
    decreases s.len() - cursor,
{
    lemma_find_pair(s, '{', cursor);
    match find_pair(s, '{', cursor) {
        None => {
            let t = s.subrange(cursor, s.len() as int);
            lemma_push_text_text(segs, t);
            let q = push_text(segs, t);
            if q.len() == 0 {
                let d = finish(q);
                reveal_with_fuel(text_of, 2);
                assert(d.drop_last() =~= Seq::<SegmentModel>::empty());
                assert(text_of(d) =~= Seq::<char>::empty());
                assert(text_of(q) =~= Seq::<char>::empty());
            }
        },
        Some(open) => {
            let t1 = s.subrange(cursor, open);
            let segs1 = push_text(segs, t1);
            lemma_push_text_text(segs, t1);
            let inner = open + 2;
            lemma_find_pair(s, '}', inner);
            match find_pair(s, '}', inner) {
                None => {
                    let t2 = s.subrange(open, s.len() as int);
                    lemma_push_text_text(segs1, t2);
                    lemma_push_text_merged_len(segs1, t2);
                    assert(t1 + t2 =~= s.subrange(cursor, s.len() as int));
                },
                Some(close) => {
                    let raw = s.subrange(inner, close);
                    match spec_parse_placeholder(trim(raw)) {
                        Ok(p) => {
                            let r = segs1.push(SegmentModel::Placeholder(p));
                            assert(r[r.len() - 1] is Placeholder);
                            lemma_parse_from_keeps_placeholders(s, close + 2, r);
                        },
                        Err(e) => {
                            let t2 = s.subrange(open, close + 2);
                            lemma_push_text_text(segs1, t2);
                            lemma_parse_from_text(s, close + 2, push_text(segs1, t2));
                            assert(t1 + t2 + s.subrange(close + 2, s.len() as int)
                                =~= s.subrange(cursor, s.len() as int));
                        },
                    }
                },
            }
        },
    }
}

proof fn lemma_push_text_merged_len(segs: Seq<SegmentModel>, t: Seq<char>)
    requires
        t.len() > 0,
    ensures
        push_text(segs, t).len() >= 1,
{
}

/// A parsed document is never empty; apart from the document of the empty template, which
/// is one empty text, its text segments are nonempty and never adjacent (adjacent text is
/// merged).
pub proof fn law_parsed_segments_are_merged(s: Seq<char>)
    ensures
        spec_parse_template(s) matches Ok(d) ==> d.len() >= 1 && (d == seq![
            SegmentModel::Text(Seq::<char>::empty()),
        ] || merged_segments(d)),
{
    lemma_parse_from_merged(s, 0, Seq::empty());
}

/// A template whose double braces are all literal comes back as exactly its own text.
pub proof fn law_literal_template_round_trips(s: Seq<char>)
    ensures
        spec_parse_template(s) matches Ok(d) ==> (!has_placeholder(d) ==> text_of(d) == s),
{
    lemma_parse_from_text(s, 0, Seq::empty());
    assert(s.subrange(0, s.len() as int) =~= s);
    assert(Seq::<char>::empty() + s =~= s);
}

/// Text without any `{{` is one text segment holding all of it.
pub proof fn law_text_without_braces_is_one_segment(s: Seq<char>)
    requires
        find_pair(s, '{', 0) is None,
    ensures
        spec_parse_template(s) == Ok::<Seq<SegmentModel>, ParseErrorModel>(seq![SegmentModel::Text(s)]),
{
    assert(s.subrange(0, s.len() as int) =~= s);
    if s.len() == 0 {
        assert(s =~= Seq::<char>::empty());
    }
    assert(push_text(Seq::empty(), s) =~= if s.len() == 0 {
        Seq::empty()
    } else {
        seq![SegmentModel::Text(s)]
    });
}

} // verus!
