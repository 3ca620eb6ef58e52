use vstd::prelude::*;

use crate::state::CommandPaletteState;
use crate::text::{chars_of, trim, trim_bounds, trim_end, trim_start};
use crate::update::{step_fits, step_selection, stepped_index};
use crate::workspace::PanelId;

verus! {

broadcast use vstd::string::group_string_axioms;

/// Commands that the palette can run.
#[derive(Debug, Clone, Copy, PartialEq, Eq, Hash, Structural)]
pub enum CommandId {
    SaveProject,
    LoadProject,
    ExportTheme,
    Reset,
    OpenConfig,
    OpenHelp,
    ToggleFullscreen,
    Quit,
}

/// A command as the palette lists it.
#[derive(Debug, Clone, Copy, PartialEq, Eq)]
pub struct CommandItem {
    pub id: CommandId,
    pub title: &'static str,
    pub keywords: &'static [&'static str],
    pub context_score: u16,
    pub enabled: bool,
}

/// `c` as a code point, lower-cased if it is an ASCII capital letter.
pub open spec fn lower_code(c: char) -> u32 {
    let u = c as u32;
    if 65 <= u <= 90 {
        (u + 32) as u32
    } else {
        u
    }
}

/// The code points of `s` with ASCII capitals lower-cased.
pub open spec fn lowered(s: Seq<char>) -> Seq<u32> {
    s.map_values(|c: char| lower_code(c))
}

/// The code points of `s`.
pub open spec fn codes(s: Seq<char>) -> Seq<u32> {
    s.map_values(|c: char| c as u32)
}

/// Whether `needle` occurs in `hay`.
pub open spec fn contains_seq(hay: Seq<u32>, needle: Seq<u32>) -> bool {
    exists|i: int|
        0 <= i && i + needle.len() <= hay.len() && #[trigger] hay.subrange(i, i + needle.len())
            == needle
}

/// How well a command matches a needle of code points: 0 for its title or an empty needle,
/// 1 for one of its keywords, `None` for no match. Title and keywords are compared with their
/// ASCII capitals lower-cased.
pub open spec fn rank_for(item: CommandItem, needle: Seq<u32>) -> Option<u8> {
    if needle.len() == 0 {
        Some(0)
    } else if contains_seq(lowered(item.title@), needle) {
        Some(0)
    } else if exists|k: int|
        0 <= k < item.keywords@.len() && contains_seq(
            lowered((#[trigger] item.keywords@[k])@),
            needle,
        ) {
        Some(1)
    } else {
        None
    }
}

/// How well a command matches an (already lower-cased) query.
pub open spec fn command_rank(item: CommandItem, query: Seq<char>) -> Option<u8> {
    rank_for(item, codes(query))
}

/// Whether the lower-cased `hay` contains `needle`.
fn contains_lowered(hay: &str, needle: &Vec<u32>) -> (r: bool)
    ensures
        r == contains_seq(lowered(hay@), needle@),
{
    let h = chars_of(hay);
    let ghost hl = lowered(h@);
    let ghost nl = needle@;
    if needle.len() > h.len() {
        proof {
            if contains_seq(hl, nl) {
                let i = choose|i: int|
                    0 <= i && i + nl.len() <= hl.len() && #[trigger] hl.subrange(i, i + nl.len())
                        == nl;
            }
        }
        return false;
    }
    let last: usize = h.len() - needle.len();
    let mut i: usize = 0;
    loop
        invariant
            i <= last,
            last + needle.len() == h.len(),
            hl == lowered(h@),
            nl == needle@,
            h@ == hay@,
            hl.len() == h@.len(),
            nl.len() == needle@.len(),
            forall|j: int| 0 <= j < i ==> #[trigger] hl.subrange(j, j + nl.len()) != nl,
        decreases last - i,
    {
        let mut k: usize = 0;
        let mut same = true;
        while k < needle.len()
            invariant
                i <= last,
                last + needle.len() == h.len(),
                k <= needle.len(),
                hl == lowered(h@),
                nl == needle@,
                hl.len() == h@.len(),
                nl.len() == needle@.len(),
                same == (forall|m: int| 0 <= m < k ==> #[trigger] hl[i + m] == nl[m]),
            decreases needle.len() - k,
        {
            let c = h[i + k];
            let u = c as u32;
            let lu = if 65 <= u && u <= 90 {
                u + 32
            } else {
                u
            };
            assert(hl[i + k] == lower_code(h@[i + k]));
            if lu != needle[k] {
                same = false;
            }
            k = k + 1;
        }
        if same {
            assert forall|m: int| 0 <= m < nl.len() implies #[trigger] hl.subrange(
                i as int,
                i + nl.len(),
            )[m] == nl[m] by {
                assert(hl[i + m] == nl[m]);
            }
            assert(hl.subrange(i as int, i + nl.len()) =~= nl);
            return true;
        }
        assert(hl.subrange(i as int, i + nl.len()) != nl) by {
            let m = choose|m: int| 0 <= m < k && hl[i + m] != nl[m];
            assert(hl.subrange(i as int, i + nl.len())[m] == hl[i + m]);
        }
        if i == last {
            proof {
                if contains_seq(hl, nl) {
                    let j = choose|j: int|
                        0 <= j && j + nl.len() <= hl.len() && #[trigger] hl.subrange(
                            j,
                            j + nl.len(),
                        ) == nl;
                    assert(hl.subrange(j, j + nl.len()) != nl);
                }
            }
            return false;
        }
        i = i + 1;
    }
}

/// The code points of `v[lo..hi]`, with ASCII capitals lower-cased when `lower` holds.
fn needle_codes(v: &Vec<char>, lo: usize, hi: usize, lower: bool) -> (r: Vec<u32>)
    requires
        lo <= hi <= v.len(),
    ensures
        r@ == (if lower {
            lowered(v@.subrange(lo as int, hi as int))
        } else {
            codes(v@.subrange(lo as int, hi as int))
        }),
{
    let ghost s = v@.subrange(lo as int, hi as int);
    let mut out: Vec<u32> = Vec::new();
    let mut i = lo;
    while i < hi
        invariant
            lo <= i <= hi <= v.len(),
            s == v@.subrange(lo as int, hi as int),
            out@.len() == i - lo,
            forall|j: int|
                0 <= j < i - lo ==> #[trigger] out@[j] == (if lower {
                    lower_code(s[j])
                } else {
                    s[j] as u32
                }),
        decreases hi - i,
    {
        let u = v[i] as u32;
        let c = if lower && 65 <= u && u <= 90 {
            u + 32
        } else {
            u
        };
        assert(s[i - lo] == v@[i as int]);
        out.push(c);
        i = i + 1;
    }
    if lower {
        assert(out@ =~= lowered(s));
    } else {
        assert(out@ =~= codes(s));
    }
    out
}

/// How well `item` matches `needle` (see [`rank_for`]).
fn rank_with(item: &CommandItem, needle: &Vec<u32>) -> (r: Option<u8>)
    ensures
        r == rank_for(*item, needle@),
{
    if needle.len() == 0 {
        return Some(0);
    }
    if contains_lowered(item.title, needle) {
        return Some(0);
    }
    let mut k: usize = 0;
    while k < item.keywords.len()
        invariant
            k <= item.keywords@.len(),
            needle@.len() != 0,
            !contains_seq(lowered(item.title@), needle@),
            forall|j: int|
                0 <= j < k ==> !contains_seq(lowered((#[trigger] item.keywords@[j])@), needle@),
        decreases item.keywords.len() - k,
    {
        if contains_lowered(item.keywords[k], needle) {
            assert(contains_seq(lowered(item.keywords@[k as int]@), needle@));
            return Some(1);
        }
        k = k + 1;
    }
    None
}

/// How well `item` matches the lower-cased `query` (see [`command_rank`]).
pub fn match_command(item: &CommandItem, query: &str) -> (r: Option<u8>)
    ensures
        r == command_rank(*item, query@),
{
    let q = chars_of(query);
    let needle = needle_codes(&q, 0, q.len(), false);
    assert(q@.subrange(0, q@.len() as int) =~= q@);
    rank_with(item, &needle)
}

/// The order in which the palette lists its commands before ranking.
pub open spec fn command_order() -> Seq<CommandId> {
    seq![
        CommandId::SaveProject,
        CommandId::LoadProject,
        CommandId::ExportTheme,
        CommandId::Reset,
        CommandId::OpenConfig,
        CommandId::OpenHelp,
        CommandId::ToggleFullscreen,
        CommandId::Quit,
    ]
}

/// The title of a command.
pub open spec fn command_title(id: CommandId) -> Seq<char> {
    match id {
        CommandId::SaveProject => "Save Project"@,
        CommandId::LoadProject => "Load Project"@,
        CommandId::ExportTheme => "Export Theme"@,
        CommandId::Reset => "Reset"@,
        CommandId::OpenConfig => "Open Config"@,
        CommandId::OpenHelp => "Open Help"@,
        CommandId::ToggleFullscreen => "Toggle Fullscreen"@,
        CommandId::Quit => "Quit"@,
    }
}

/// The search keywords of a command.
pub open spec fn command_keywords(id: CommandId) -> Seq<Seq<char>> {
    match id {
        CommandId::SaveProject => seq!["save"@, "project"@],
        CommandId::LoadProject => seq!["load"@, "project"@, "open"@],
        CommandId::ExportTheme => seq!["export"@, "theme"@],
        CommandId::Reset => seq!["defaults"@, "restore"@],
        CommandId::OpenConfig => seq!["config"@, "settings"@],
        CommandId::OpenHelp => seq!["help"@, "shortcuts"@],
        CommandId::ToggleFullscreen => seq!["fullscreen"@, "preview"@],
        CommandId::Quit => seq!["exit"@, "close"@],
    }
}

/// How strongly a command relates to the focused panel: the configuration panels favour
/// Open Config, the preview favours Toggle Fullscreen.
pub open spec fn context_score_for(id: CommandId, active_panel: PanelId) -> u16 {
    match id {
        CommandId::OpenConfig => match active_panel {
            PanelId::ProjectConfig | PanelId::ExportTargets | PanelId::EditorPreferences => 10,
            _ => 0,
        },
        CommandId::ToggleFullscreen => match active_panel {
            PanelId::Preview => 20,
            _ => 0,
        },
        _ => 0,
    }
}

/// Whether `items` is the palette's command list while `active_panel` has focus.
pub open spec fn is_command_list(items: Seq<CommandItem>, active_panel: PanelId) -> bool {
    &&& items.len() == command_order().len()
    &&& forall|i: int|
        0 <= i < items.len() ==> {
            let it = #[trigger] items[i];
            &&& it.id == command_order()[i]
            &&& it.title@ == command_title(it.id)
            &&& it.keywords@.len() == command_keywords(it.id).len()
            &&& (forall|k: int|
                0 <= k < it.keywords@.len() ==> (#[trigger] it.keywords@[k])@ == command_keywords(
                    it.id,
                )[k])
            &&& it.context_score == context_score_for(it.id, active_panel)
            &&& it.enabled
        }
}

/// The commands of the palette, with their context scores for the focused panel.
pub fn command_items(active_panel: PanelId) -> (r: Vec<CommandItem>)
    ensures
        is_command_list(r@, active_panel),
{
    let config_score: u16 = match active_panel {
        PanelId::ProjectConfig | PanelId::ExportTargets | PanelId::EditorPreferences => 10,
        _ => 0,
    };
    let fullscreen_score: u16 = match active_panel {
        PanelId::Preview => 20,
        _ => 0,
    };
    let r = vec![
        CommandItem {
            id: CommandId::SaveProject,
            title: "Save Project",
            keywords: &["save", "project"],
            context_score: 0,
            enabled: true,
        },
        CommandItem {
            id: CommandId::LoadProject,
            title: "Load Project",
            keywords: &["load", "project", "open"],
            context_score: 0,
            enabled: true,
        },
        CommandItem {
            id: CommandId::ExportTheme,
            title: "Export Theme",
            keywords: &["export", "theme"],
            context_score: 0,
            enabled: true,
        },
        CommandItem {
            id: CommandId::Reset,
            title: "Reset",
            keywords: &["defaults", "restore"],
            context_score: 0,
            enabled: true,
        },
        CommandItem {
            id: CommandId::OpenConfig,
            title: "Open Config",
            keywords: &["config", "settings"],
            context_score: config_score,
            enabled: true,
        },
        CommandItem {
            id: CommandId::OpenHelp,
            title: "Open Help",
            keywords: &["help", "shortcuts"],
            context_score: 0,
            enabled: true,
        },
        CommandItem {
            id: CommandId::ToggleFullscreen,
            title: "Toggle Fullscreen",
            keywords: &["fullscreen", "preview"],
            context_score: fullscreen_score,
            enabled: true,
        },
        CommandItem {
            id: CommandId::Quit,
            title: "Quit",
            keywords: &["exit", "close"],
            context_score: 0,
            enabled: true,
        },
    ];
    r
}

/// The palette's order on ranked commands: a better (lower) rank first, then a higher context
/// score, then the earlier position in the list.
pub open spec fn precedes(ra: int, sa: int, a: int, rb: int, sb: int, b: int) -> bool {
    ra < rb || (ra == rb && (sa > sb || (sa == sb && a < b)))
}

/// Whether item `a` comes before item `b` when both match `needle`.
pub open spec fn ranked_before(items: Seq<CommandItem>, needle: Seq<u32>, a: int, b: int) -> bool {
    precedes(
        rank_for(items[a], needle).unwrap() as int,
        items[a].context_score as int,
        a,
        rank_for(items[b], needle).unwrap() as int,
        items[b].context_score as int,
        b,
    )
}

/// `r` lists the items of `items` that match `needle`, through the positions `idx`, each
/// matching item once, in the palette's order.
pub open spec fn listed_through(
    items: Seq<CommandItem>,
    needle: Seq<u32>,
    r: Seq<CommandItem>,
    idx: Seq<int>,
) -> bool {
    &&& idx.len() == r.len()
    &&& forall|j: int|
        0 <= j < idx.len() ==> {
            &&& 0 <= #[trigger] idx[j] < items.len()
            &&& rank_for(items[idx[j]], needle) is Some
            &&& r[j] == items[idx[j]]
        }
    &&& forall|j1: int, j2: int|
        0 <= j1 < j2 < idx.len() ==> ranked_before(items, needle, #[trigger] idx[j1], #[trigger] idx[j2])
    &&& forall|i: int|
        0 <= i < items.len() && (#[trigger] rank_for(items[i], needle)) is Some ==> idx.contains(i)
}

/// `r` is `items` filtered by `needle` and put in the palette's order.
pub open spec fn ranked_listing(items: Seq<CommandItem>, needle: Seq<u32>, r: Seq<CommandItem>) -> bool {
    exists|idx: Seq<int>| listed_through(items, needle, r, idx)
}

/// Whether item `a` comes before item `b`, both ranked.
fn comes_before(items: &Vec<CommandItem>, ranks: &Vec<Option<u8>>, a: usize, b: usize) -> (r: bool)
    requires
        a < items.len(),
        b < items.len(),
        ranks.len() == items.len(),
        ranks@[a as int] is Some,
        ranks@[b as int] is Some,
    ensures
        r == precedes(
            ranks@[a as int].unwrap() as int,
            items@[a as int].context_score as int,
            a as int,
            ranks@[b as int].unwrap() as int,
            items@[b as int].context_score as int,
            b as int,
        ),
{
    let ra = ranks[a].unwrap();
    let rb = ranks[b].unwrap();
    let sa = items[a].context_score;
    let sb = items[b].context_score;
    ra < rb || (ra == rb && (sa > sb || (sa == sb && a < b)))
}

/// The items that match `query`, trimmed and compared without regard to ASCII case, best
/// first: by rank, then by context score (higher first), then by their order in `items`.
pub fn rank_commands(items: &Vec<CommandItem>, query: &str) -> (r: Vec<CommandItem>)
    ensures
        ranked_listing(items@, lowered(trim(query@)), r@),
{
    let t = chars_of(query);
    let (lo, hi) = trim_bounds(&t, 0, t.len());
    assert(t@.subrange(0, t@.len() as int) =~= t@);
    let needle = needle_codes(&t, lo, hi, true);
    let ghost nd = needle@;
    let n = items.len();
    let mut ranks: Vec<Option<u8>> = Vec::new();
    for i in 0..n
        invariant
            n == items.len(),
            nd == needle@,
            ranks@.len() == i,
            forall|j: int| 0 <= j < i ==> #[trigger] ranks@[j] == rank_for(items@[j], nd),
    {
        let rk = rank_with(&items[i], &needle);
        ranks.push(rk);
    }
    let mut out: Vec<CommandItem> = Vec::new();
    let ghost mut idx: Seq<int> = Seq::empty();
    let mut have_last = false;
    let mut last: usize = 0;
    loop
        invariant
            n == items.len(),
            nd == lowered(trim(query@)),
            ranks@.len() == n,
            forall|j: int| 0 <= j < n ==> #[trigger] ranks@[j] == rank_for(items@[j], nd),
            forall|j: int| 0 <= j < n ==> (#[trigger] ranks@[j] is Some ==> ranks@[j].unwrap() <= 1),
            out@.len() == idx.len(),
            forall|j: int|
                0 <= j < idx.len() ==> {
                    &&& 0 <= #[trigger] idx[j] < n
                    &&& rank_for(items@[idx[j]], nd) is Some
                    &&& out@[j] == items@[idx[j]]
                },
            forall|j1: int, j2: int|
                0 <= j1 < j2 < idx.len() ==> ranked_before(items@, nd, #[trigger] idx[j1], #[trigger] idx[j2]),
            have_last ==> last < n && idx.len() > 0 && idx.last() == last as int,
            !have_last ==> idx.len() == 0,
            forall|i: int|
                0 <= i < n && (#[trigger] rank_for(items@[i], nd)) is Some && have_last && !ranked_before(items@, nd, last as int, i)
                    ==> idx.contains(i),
        decreases
            (if have_last { 2 - ranks@[last as int].unwrap() } else { 3 }),
            (if have_last { items@[last as int].context_score as int } else { 65536 }),
            (if have_last { n - last } else { n + 1 }),
    {
        let mut best: usize = 0;
        let mut found = false;
        for i in 0..n
            invariant
                n == items.len(),
                ranks@.len() == n,
                forall|j: int| 0 <= j < n ==> #[trigger] ranks@[j] == rank_for(items@[j], nd),
                have_last ==> last < n,
                have_last ==> ranks@[last as int] is Some,
                found ==> best < i,
                found ==> ranks@[best as int] is Some,
                found ==> (have_last ==> ranked_before(items@, nd, last as int, best as int)),
                forall|j: int|
                    0 <= j < i && (#[trigger] ranks@[j]) is Some && (have_last ==> ranked_before(items@, nd, last as int, j))
                        ==> found && (j == best || ranked_before(items@, nd, best as int, j)),
        {
            if ranks[i].is_some() {
                let after_last = if have_last {
                    comes_before(items, &ranks, last, i)
                } else {
                    true
                };
                if after_last {
                    if !found || comes_before(items, &ranks, i, best) {
                        best = i;
                        found = true;
                    }
                }
            }
        }
        if !found {
            proof {
                assert forall|i: int|
                    0 <= i < n && (#[trigger] rank_for(items@[i], nd)) is Some implies idx.contains(
                    i,
                ) by {
                    assert(ranks@[i] is Some);
                    if !have_last || ranked_before(items@, nd, last as int, i) {
                        assert(false);
                    }
                }
                assert(listed_through(items@, nd, out@, idx));
            }
            return out;
        }
        let ghost old_idx = idx;
        out.push(items[best]);
        proof {
            idx = idx.push(best as int);
            assert forall|i: int|
                0 <= i < n && (#[trigger] rank_for(items@[i], nd)) is Some && !ranked_before(
                    items@,
                    nd,
                    best as int,
                    i,
                ) implies idx.contains(i) by {
                assert(ranks@[i] is Some);
                if i == best {
                    assert(idx[idx.len() - 1] == i);
                } else {
                    assert(ranked_before(items@, nd, i, best as int));
                    if have_last && !ranked_before(items@, nd, last as int, i) {
                        let j = choose|j: int| 0 <= j < old_idx.len() && old_idx[j] == i;
                        assert(idx[j] == i);
                    } else {
                        assert(false);
                    }
                }
            }
        }
        have_last = true;
        last = best;
    }
}

/// The palette's commands for the focused panel that match `query`, best first.
pub fn filter_commands(active_panel: PanelId, query: &str) -> (r: Vec<CommandItem>)
    ensures
        exists|items: Seq<CommandItem>|
            is_command_list(items, active_panel) && ranked_listing(
                items,
                lowered(trim(query@)),
                r@,
            ),
{
    let items = command_items(active_panel);
    rank_commands(&items, query)
}

/// The row that the palette highlights after a move: the stepped selection, or the first row
/// when nothing matches.
pub open spec fn palette_row_after(current: usize, matches: nat, delta: i32) -> int {
    match stepped_index(current, matches as usize, delta) {
        Some(i) => i,
        None => 0,
    }
}

/// Moves the palette's highlighted row by `delta` among the commands that match its query,
/// wrapping at both ends; when nothing matches, the first row stays highlighted.
pub fn move_palette_selection(palette: &mut CommandPaletteState, active_panel: PanelId, delta: i32)
    requires
        forall|items: Seq<CommandItem>, r: Seq<CommandItem>|
            #![trigger is_command_list(items, active_panel), ranked_listing(items, lowered(trim(old(palette).query@)), r)]
            is_command_list(items, active_panel) && ranked_listing(
                items,
                lowered(trim(old(palette).query@)),
                r,
            ) ==> step_fits(old(palette).selected, r.len() as usize, delta),
    ensures
        final(palette).query == old(palette).query,
        exists|items: Seq<CommandItem>, r: Seq<CommandItem>|
            #![trigger is_command_list(items, active_panel), ranked_listing(items, lowered(trim(old(palette).query@)), r)]
            is_command_list(items, active_panel) && ranked_listing(
                items,
                lowered(trim(old(palette).query@)),
                r,
            ) && final(palette).selected == palette_row_after(old(palette).selected, r.len(), delta),
{
    let listed = filter_commands(active_panel, palette.query.as_str());
    let ghost needle = lowered(trim(palette.query@));
    let ghost items = choose|items: Seq<CommandItem>|
        is_command_list(items, active_panel) && ranked_listing(items, needle, listed@);
    assert(is_command_list(items, active_panel) && ranked_listing(items, needle, listed@));
    let len = listed.len();
    palette.selected = match step_selection(palette.selected, len, delta) {
        Some(i) => i,
        None => 0,
    };
}

/// In a ranked listing, two matching items are both listed, and the one that comes first in
/// the palette's order (better rank, then higher context score, then earlier in the list) is
/// listed first.
pub proof fn law_listing_follows_palette_order(
    items: Seq<CommandItem>,
    needle: Seq<u32>,
    r: Seq<CommandItem>,
    idx: Seq<int>,
    a: int,
    b: int,
)
    requires
        listed_through(items, needle, r, idx),
        0 <= a < items.len(),
        0 <= b < items.len(),
        rank_for(items[a], needle) is Some,
        rank_for(items[b], needle) is Some,
        ranked_before(items, needle, a, b),
    ensures
        exists|p: int, q: int|
            0 <= p < q < r.len() && #[trigger] idx[p] == a && #[trigger] idx[q] == b && r[p]
                == items[a] && r[q] == items[b],
{
    assert(idx.contains(a));
    assert(idx.contains(b));
    let p = choose|p: int| 0 <= p < idx.len() && idx[p] == a;
    let q = choose|q: int| 0 <= q < idx.len() && idx[q] == b;
    if q < p {
        assert(ranked_before(items, needle, idx[q], idx[p]));
    }
    assert(p != q);
    assert(r[p] == items[idx[p]]);
    assert(r[q] == items[idx[q]]);
}

/// With an empty query every command matches, with rank 0.
pub proof fn law_empty_query_matches_everything(item: CommandItem)
    ensures
        rank_for(item, Seq::empty()) == Some(0u8),
{
}

/// Whether `item` matches the lower-cased `needle`: an empty needle matches everything,
/// otherwise its ASCII-lower-cased title or one of its lower-cased keywords must contain it.
pub open spec fn entry_matches(item: CommandItem, needle: Seq<u32>) -> bool {
    ||| needle.len() == 0
    ||| contains_seq(lowered(item.title@), needle)
    ||| exists|k: int|
        0 <= k < item.keywords@.len() && contains_seq(lowered((#[trigger] item.keywords@[k])@), needle)
}

/// The sort key's first part: 0 for an empty needle or a title match, 1 otherwise.
pub open spec fn entry_rank(item: CommandItem, needle: Seq<u32>) -> int {
    if needle.len() == 0 || contains_seq(lowered(item.title@), needle) {
        0
    } else {
        1
    }
}

/// Whether entry `a` sorts before entry `b`: by rank, then by higher context score, then by
/// position in the list.
pub open spec fn entry_before(items: Seq<CommandItem>, needle: Seq<u32>, a: int, b: int) -> bool {
    let (ra, rb) = (entry_rank(items[a], needle), entry_rank(items[b], needle));
    let (sa, sb) = (items[a].context_score as int, items[b].context_score as int);
    ra < rb || (ra == rb && (sa > sb || (sa == sb && a < b)))
}

/// The listing, in the terms of the entries: it holds exactly the matching entries, each
/// once, sorted by (rank, higher context score, position).
pub proof fn law_ranked_listing_in_entry_terms(
    items: Seq<CommandItem>,
    needle: Seq<u32>,
    r: Seq<CommandItem>,
    idx: Seq<int>,
)
    requires
        listed_through(items, needle, r, idx),
    ensures
        forall|i: int| 0 <= i < items.len() ==> (#[trigger] rank_for(items[i], needle) is Some
            <==> entry_matches(items[i], needle)),
        forall|j: int| 0 <= j < r.len() ==> entry_matches(#[trigger] items[idx[j]], needle) && r[j] == items[idx[j]],
        forall|i: int| 0 <= i < items.len() && entry_matches(#[trigger] items[i], needle) ==> idx.contains(i),
        idx.no_duplicates(),
        forall|j1: int, j2: int|
            0 <= j1 < j2 < r.len() ==> entry_before(items, needle, #[trigger] idx[j1], #[trigger] idx[j2]),
{
    assert forall|i: int| 0 <= i < items.len() implies (#[trigger] rank_for(items[i], needle) is Some
        <==> entry_matches(items[i], needle)) by {}
    assert forall|j: int| 0 <= j < r.len() implies entry_matches(#[trigger] items[idx[j]], needle)
        && r[j] == items[idx[j]] by {
        assert(rank_for(items[idx[j]], needle) is Some);
    }
    assert forall|i: int| 0 <= i < items.len() && entry_matches(#[trigger] items[i], needle)
        implies idx.contains(i) by {
        assert(rank_for(items[i], needle) is Some);
    }
    assert forall|j1: int, j2: int| 0 <= j1 < idx.len() && 0 <= j2 < idx.len() && j1 != j2
        implies idx[j1] != idx[j2] by {
        if j1 < j2 {
            assert(ranked_before(items, needle, idx[j1], idx[j2]));
        } else {
            assert(ranked_before(items, needle, idx[j2], idx[j1]));
        }
    }
    assert forall|j1: int, j2: int| 0 <= j1 < j2 < r.len() implies entry_before(
        items,
        needle,
        #[trigger] idx[j1],
        #[trigger] idx[j2],
    ) by {
        assert(ranked_before(items, needle, idx[j1], idx[j2]));
    }
}

/// Two position lists, each strictly sorted in the palette's order over matching entries
/// and holding the same entries, are equal.
proof fn lemma_sorted_positions_unique(items: Seq<CommandItem>, needle: Seq<u32>, a: Seq<int>, b: Seq<int>)
    requires
        forall|j: int| 0 <= j < a.len() ==> 0 <= #[trigger] a[j] < items.len() && rank_for(items[a[j]], needle) is Some,
        forall|j: int| 0 <= j < b.len() ==> 0 <= #[trigger] b[j] < items.len() && rank_for(items[b[j]], needle) is Some,
        forall|j1: int, j2: int| 0 <= j1 < j2 < a.len() ==> ranked_before(items, needle, #[trigger] a[j1], #[trigger] a[j2]),
        forall|j1: int, j2: int| 0 <= j1 < j2 < b.len() ==> ranked_before(items, needle, #[trigger] b[j1], #[trigger] b[j2]),
        forall|i: int| a.contains(i) <==> b.contains(i),
    ensures
        a == b,
    decreases a.len(),
{
    if a.len() == 0 {
        if b.len() > 0 {
            assert(b.contains(b[0]));
        }
        assert(a =~= b);
    } else {
        assert(a.contains(a[0]));
        assert(b.len() > 0);
        assert(b.contains(b[0]));
        let q = choose|q: int| 0 <= q < b.len() && b[q] == a[0];
        let p = choose|p: int| 0 <= p < a.len() && a[p] == b[0];
        if a[0] != b[0] {
            assert(p > 0 && q > 0);
            assert(ranked_before(items, needle, a[0], a[p]));
            assert(ranked_before(items, needle, b[0], b[q]));
        }
        let a2 = a.drop_first();
        let b2 = b.drop_first();
        assert forall|i: int| a2.contains(i) <==> b2.contains(i) by {
            if a2.contains(i) {
                let j = choose|j: int| 0 <= j < a2.len() && a2[j] == i;
                assert(a[j + 1] == i);
                assert(ranked_before(items, needle, a[0], a[j + 1]));
                assert(b.contains(i));
                let k = choose|k: int| 0 <= k < b.len() && b[k] == i;
                assert(k != 0);
                assert(b2[k - 1] == i);
            }
            if b2.contains(i) {
                let j = choose|j: int| 0 <= j < b2.len() && b2[j] == i;
                assert(b[j + 1] == i);
                assert(ranked_before(items, needle, b[0], b[j + 1]));
                assert(a.contains(i));
                let k = choose|k: int| 0 <= k < a.len() && a[k] == i;
                assert(k != 0);
                assert(a2[k - 1] == i);
            }
        }
        assert forall|j1: int, j2: int| 0 <= j1 < j2 < a2.len() implies ranked_before(
            items,
            needle,
            #[trigger] a2[j1],
            #[trigger] a2[j2],
        ) by {
            assert(a2[j1] == a[j1 + 1] && a2[j2] == a[j2 + 1]);
        }
        assert forall|j1: int, j2: int| 0 <= j1 < j2 < b2.len() implies ranked_before(
            items,
            needle,
            #[trigger] b2[j1],
            #[trigger] b2[j2],
        ) by {
            assert(b2[j1] == b[j1 + 1] && b2[j2] == b[j2 + 1]);
        }
        assert forall|j: int| 0 <= j < a2.len() implies 0 <= #[trigger] a2[j] < items.len()
            && rank_for(items[a2[j]], needle) is Some by {
            assert(a2[j] == a[j + 1]);
        }
        assert forall|j: int| 0 <= j < b2.len() implies 0 <= #[trigger] b2[j] < items.len()
            && rank_for(items[b2[j]], needle) is Some by {
            assert(b2[j] == b[j + 1]);
        }
        lemma_sorted_positions_unique(items, needle, a2, b2);
        assert(a[0] == b[0]);
        assert(a =~= seq![a[0]] + a2);
        assert(b =~= seq![b[0]] + b2);
    }
}

/// A ranked listing is determined by the items and the needle: there is only one. So the
/// palette's result is the stable sort of the matching entries by (rank, higher context
/// score, position).
pub proof fn law_ranked_listing_is_unique(
    items: Seq<CommandItem>,
    needle: Seq<u32>,
    r1: Seq<CommandItem>,
    r2: Seq<CommandItem>,
)
    requires
        ranked_listing(items, needle, r1),
        ranked_listing(items, needle, r2),
    ensures
        r1 == r2,
{
    let idx1 = choose|idx: Seq<int>| listed_through(items, needle, r1, idx);
    let idx2 = choose|idx: Seq<int>| listed_through(items, needle, r2, idx);
    assert forall|i: int| idx1.contains(i) <==> idx2.contains(i) by {
        if idx1.contains(i) {
            let j = choose|j: int| 0 <= j < idx1.len() && idx1[j] == i;
            assert(0 <= idx1[j] < items.len());
        }
        if idx2.contains(i) {
            let j = choose|j: int| 0 <= j < idx2.len() && idx2[j] == i;
            assert(0 <= idx2[j] < items.len());
        }
    }
    lemma_sorted_positions_unique(items, needle, idx1, idx2);
    assert forall|j: int| 0 <= j < r1.len() implies r1[j] == r2[j] by {
        assert(r1[j] == items[idx1[j]]);
        assert(r2[j] == items[idx2[j]]);
    }
    assert(r1 =~= r2);
}

/// The configuration command is found by the query "settings", on every panel: whatever the
/// focused panel, the ranked listing for that query holds the Open Config entry.
pub proof fn law_settings_finds_open_config(
    panel: PanelId,
    items: Seq<CommandItem>,
    r: Seq<CommandItem>,
)
    requires
        is_command_list(items, panel),
        ranked_listing(items, lowered(trim("settings"@)), r),
    ensures
        exists|j: int| 0 <= j < r.len() && (#[trigger] r[j]).id == CommandId::OpenConfig,
{
    reveal_strlit("settings");
    let word = "settings"@;
    assert(trim_start(word) == word);
    assert(trim_end(word) == word);
    let needle = lowered(word);
    let item = items[4];
    assert(item.id == CommandId::OpenConfig);
    assert(item.keywords@[1]@ == word);
    assert(lowered(item.keywords@[1]@).subrange(0int, 0int + needle.len()) =~= needle);
    assert(contains_seq(lowered(item.keywords@[1]@), needle));
    assert(rank_for(item, needle) is Some);
    let idx = choose|idx: Seq<int>| listed_through(items, needle, r, idx);
    assert(idx.contains(4));
    let j = choose|j: int| 0 <= j < idx.len() && idx[j] == 4;
    assert(r[j] == items[4]);
}

} // verus!
