use vstd::prelude::*;

use crate::ui_meta::panel_tab;
use crate::workspace::{PanelId, WorkspaceTab};

verus! {

/// Direction in which a split lays out its children.
#[derive(Debug, Clone, Copy, PartialEq, Eq)]
pub enum Axis {
    Horizontal,
    Vertical,
}

/// How much room a child of a split takes.
#[derive(Debug, Clone, Copy, PartialEq, Eq)]
pub enum Size {
    Length(u16),
    Min(u16),
    Percentage(u16),
}

/// One child of a row or column.
#[derive(Debug)]
pub struct LayoutChild {
    pub size: Size,
    pub node: WorkspaceLayout,
}

/// A declarative workspace layout: nested rows and columns of panels.
#[derive(Debug)]
pub enum WorkspaceLayout {
    Row(Vec<LayoutChild>),
    Column(Vec<LayoutChild>),
    Panel(PanelId),
    StatusBar,
}

/// The panels of a layout, depth first, left to right.
pub open spec fn layout_panels(l: WorkspaceLayout) -> Seq<PanelId>
    decreases l, 0nat,
{
    match l {
        WorkspaceLayout::Row(cs) => children_panels(cs@, cs@.len() as int),
        WorkspaceLayout::Column(cs) => children_panels(cs@, cs@.len() as int),
        WorkspaceLayout::Panel(id) => seq![id],
        WorkspaceLayout::StatusBar => Seq::empty(),
    }
}

/// The panels of the first `n` children, in order.
pub open spec fn children_panels(cs: Seq<LayoutChild>, n: int) -> Seq<PanelId>
    decreases cs, n,
{
    if n <= 0 || n > cs.len() {
        Seq::empty()
    } else {
        children_panels(cs, n - 1) + layout_panels(cs[n - 1].node)
    }
}

/// The sizes of the direct children of a row or column.
pub open spec fn child_sizes(l: WorkspaceLayout) -> Seq<Size> {
    match l {
        WorkspaceLayout::Row(cs) => cs@.map_values(|c: LayoutChild| c.size),
        WorkspaceLayout::Column(cs) => cs@.map_values(|c: LayoutChild| c.size),
        _ => Seq::empty(),
    }
}

/// A child with the given size.
pub fn child(size: Size, node: WorkspaceLayout) -> (r: LayoutChild)
    ensures
        r.size == size,
        r.node == node,
{
    LayoutChild { size, node }
}

/// Children side by side.
pub fn row(children: Vec<LayoutChild>) -> (r: WorkspaceLayout)
    ensures
        r == WorkspaceLayout::Row(children),
{
    WorkspaceLayout::Row(children)
}

/// Children stacked.
pub fn column(children: Vec<LayoutChild>) -> (r: WorkspaceLayout)
    ensures
        r == WorkspaceLayout::Column(children),
{
    WorkspaceLayout::Column(children)
}

/// A single panel.
pub fn panel(id: PanelId) -> (r: WorkspaceLayout)
    ensures
        r == WorkspaceLayout::Panel(id),
{
    WorkspaceLayout::Panel(id)
}

/// The status bar.
pub fn status_bar() -> (r: WorkspaceLayout)
    ensures
        r == WorkspaceLayout::StatusBar,
{
    WorkspaceLayout::StatusBar
}

/// The panels of the theme workspace, in layout order.
pub open spec fn theme_panels() -> Seq<PanelId> {
    seq![
        PanelId::Tokens,
        PanelId::Params,
        PanelId::Palette,
        PanelId::ResolvedPrimary,
        PanelId::ResolvedSecondary,
        PanelId::Preview,
        PanelId::Inspector,
        PanelId::InteractionInspector,
    ]
}

/// The panels of the alternative theme layout that favours the preview.
pub open spec fn preview_focus_panels() -> Seq<PanelId> {
    seq![
        PanelId::Tokens,
        PanelId::Params,
        PanelId::Preview,
        PanelId::Inspector,
        PanelId::InteractionInspector,
        PanelId::Palette,
    ]
}

/// The panels of the project workspace, in layout order.
pub open spec fn project_panels() -> Seq<PanelId> {
    seq![PanelId::ProjectConfig, PanelId::ExportTargets, PanelId::EditorPreferences]
}

/// The panels that tab `tab` shows.
pub open spec fn tab_panels(tab: WorkspaceTab) -> Seq<PanelId> {
    match tab {
        WorkspaceTab::Theme => theme_panels(),
        WorkspaceTab::Project => project_panels(),
    }
}

proof fn lemma_two_children(a: LayoutChild, b: LayoutChild, cs: Seq<LayoutChild>)
    requires
        cs == seq![a, b],
    ensures
        children_panels(cs, 2) == layout_panels(a.node) + layout_panels(b.node),
{
    reveal_with_fuel(children_panels, 3);
    assert(children_panels(cs, 0) =~= Seq::<PanelId>::empty());
    assert(Seq::<PanelId>::empty() + layout_panels(a.node) =~= layout_panels(a.node));
}

proof fn lemma_three_children(a: LayoutChild, b: LayoutChild, c: LayoutChild, cs: Seq<LayoutChild>)
    requires
        cs == seq![a, b, c],
    ensures
        children_panels(cs, 3) == layout_panels(a.node) + layout_panels(b.node) + layout_panels(
            c.node,
        ),
{
    reveal_with_fuel(children_panels, 4);
    assert(children_panels(cs, 0) =~= Seq::<PanelId>::empty());
    assert(Seq::<PanelId>::empty() + layout_panels(a.node) =~= layout_panels(a.node));
}

proof fn lemma_four_children(
    a: LayoutChild,
    b: LayoutChild,
    c: LayoutChild,
    d: LayoutChild,
    cs: Seq<LayoutChild>,
)
    requires
        cs == seq![a, b, c, d],
    ensures
        children_panels(cs, 4) == layout_panels(a.node) + layout_panels(b.node) + layout_panels(
            c.node,
        ) + layout_panels(d.node),
{
    reveal_with_fuel(children_panels, 5);
    assert(children_panels(cs, 0) =~= Seq::<PanelId>::empty());
    assert(Seq::<PanelId>::empty() + layout_panels(a.node) =~= layout_panels(a.node));
}

/// `l` is a column whose children are plain panels, with the given sizes and panels.
pub open spec fn panel_column(l: WorkspaceLayout, entries: Seq<(Size, PanelId)>) -> bool {
    &&& l is Column
    &&& l->Column_0@.len() == entries.len()
    &&& forall|i: int|
        0 <= i < entries.len() ==> (#[trigger] l->Column_0@[i]).size == entries[i].0
            && l->Column_0@[i].node == WorkspaceLayout::Panel(entries[i].1)
}

/// A column of two panels with the given sizes.
fn pair_column(s1: Size, p1: PanelId, s2: Size, p2: PanelId) -> (r: WorkspaceLayout)
    ensures
        r is Column,
        layout_panels(r) == seq![p1, p2],
        child_sizes(r) == seq![s1, s2],
        panel_column(r, seq![(s1, p1), (s2, p2)]),
{
    let a = child(s1, panel(p1));
    let b = child(s2, panel(p2));
    let cs = vec![a, b];
    proof {
        lemma_two_children(a, b, cs@);
        assert(seq![p1] + seq![p2] =~= seq![p1, p2]);
        assert(cs@.map_values(|c: LayoutChild| c.size) =~= seq![s1, s2]);
    }
    column(cs)
}

/// The theme workspace: a row of three columns, tokens and parameters on the left, palette,
/// resolved tokens and preview in the middle, the inspectors on the right, with their sizes.
pub open spec fn theme_layout(r: WorkspaceLayout) -> bool {
    &&& r is Row
    &&& layout_panels(r) == theme_panels()
    &&& child_sizes(r) == seq![Size::Length(34), Size::Min(48), Size::Length(40)]
    &&& child_sizes(r->Row_0@[0].node) == seq![Size::Percentage(58), Size::Percentage(42)]
    &&& child_sizes(r->Row_0@[1].node) == seq![
        Size::Percentage(22),
        Size::Percentage(14),
        Size::Percentage(14),
        Size::Percentage(50),
    ]
    &&& child_sizes(r->Row_0@[2].node) == seq![Size::Percentage(50), Size::Percentage(50)]
    &&& r->Row_0@.len() == 3
    &&& panel_column(
        r->Row_0@[0].node,
        seq![(Size::Percentage(58), PanelId::Tokens), (Size::Percentage(42), PanelId::Params)],
    )
    &&& panel_column(
        r->Row_0@[1].node,
        seq![
            (Size::Percentage(22), PanelId::Palette),
            (Size::Percentage(14), PanelId::ResolvedPrimary),
            (Size::Percentage(14), PanelId::ResolvedSecondary),
            (Size::Percentage(50), PanelId::Preview),
        ],
    )
    &&& panel_column(
        r->Row_0@[2].node,
        seq![
            (Size::Percentage(50), PanelId::Inspector),
            (Size::Percentage(50), PanelId::InteractionInspector),
        ],
    )
}

/// The layout of the theme workspace.
pub fn default_workspace_layout() -> (r: WorkspaceLayout)
    ensures
        theme_layout(r),
{
    let left = child(
        Size::Length(34),
        pair_column(Size::Percentage(58), PanelId::Tokens, Size::Percentage(42), PanelId::Params),
    );
    let palette = child(Size::Percentage(22), panel(PanelId::Palette));
    let primary = child(Size::Percentage(14), panel(PanelId::ResolvedPrimary));
    let secondary = child(Size::Percentage(14), panel(PanelId::ResolvedSecondary));
    let preview = child(Size::Percentage(50), panel(PanelId::Preview));
    let inner = vec![palette, primary, secondary, preview];
    proof {
        lemma_four_children(palette, primary, secondary, preview, inner@);
        assert(inner@.map_values(|c: LayoutChild| c.size) =~= seq![
            Size::Percentage(22),
            Size::Percentage(14),
            Size::Percentage(14),
            Size::Percentage(50),
        ]);
    }
    let middle = child(Size::Min(48), column(inner));
    let right = child(
        Size::Length(40),
        pair_column(
            Size::Percentage(50),
            PanelId::Inspector,
            Size::Percentage(50),
            PanelId::InteractionInspector,
        ),
    );
    let cs = vec![left, middle, right];
    proof {
        lemma_three_children(left, middle, right, cs@);
        assert(layout_panels(left.node) + layout_panels(middle.node) + layout_panels(right.node)
            =~= theme_panels());
        assert(cs@.map_values(|c: LayoutChild| c.size) =~= seq![
            Size::Length(34),
            Size::Min(48),
            Size::Length(40),
        ]);
    }
    row(cs)
}

/// A theme layout that gives the preview the whole middle column.
pub fn preview_focus_layout() -> (r: WorkspaceLayout)
    ensures
        r is Row,
        layout_panels(r) == preview_focus_panels(),
        child_sizes(r) == seq![Size::Length(34), Size::Min(56), Size::Length(36)],
        child_sizes(r->Row_0@[0].node) == seq![Size::Percentage(55), Size::Percentage(45)],
        r->Row_0@[1].node == WorkspaceLayout::Panel(PanelId::Preview),
        child_sizes(r->Row_0@[2].node) == seq![
            Size::Percentage(32),
            Size::Percentage(28),
            Size::Percentage(40),
        ],
        r->Row_0@.len() == 3,
        panel_column(
            r->Row_0@[0].node,
            seq![(Size::Percentage(55), PanelId::Tokens), (Size::Percentage(45), PanelId::Params)],
        ),
        panel_column(
            r->Row_0@[2].node,
            seq![
                (Size::Percentage(32), PanelId::Inspector),
                (Size::Percentage(28), PanelId::InteractionInspector),
                (Size::Percentage(40), PanelId::Palette),
            ],
        ),
{
    let left = child(
        Size::Length(34),
        pair_column(Size::Percentage(55), PanelId::Tokens, Size::Percentage(45), PanelId::Params),
    );
    let middle = child(Size::Min(56), panel(PanelId::Preview));
    let a = child(Size::Percentage(32), panel(PanelId::Inspector));
    let b = child(Size::Percentage(28), panel(PanelId::InteractionInspector));
    let c = child(Size::Percentage(40), panel(PanelId::Palette));
    let inner = vec![a, b, c];
    proof {
        lemma_three_children(a, b, c, inner@);
        assert(inner@.map_values(|c: LayoutChild| c.size) =~= seq![
            Size::Percentage(32),
            Size::Percentage(28),
            Size::Percentage(40),
        ]);
    }
    let right = child(Size::Length(36), column(inner));
    let cs = vec![left, middle, right];
    proof {
        lemma_three_children(left, middle, right, cs@);
        assert(layout_panels(left.node) + layout_panels(middle.node) + layout_panels(right.node)
            =~= preview_focus_panels());
        assert(cs@.map_values(|c: LayoutChild| c.size) =~= seq![
            Size::Length(34),
            Size::Min(56),
            Size::Length(36),
        ]);
    }
    row(cs)
}

/// The project workspace: the project's settings on the left, export targets above editor
/// preferences on the right, with their sizes.
pub open spec fn project_layout(r: WorkspaceLayout) -> bool {
    &&& r is Row
    &&& layout_panels(r) == project_panels()
    &&& child_sizes(r) == seq![Size::Length(32), Size::Min(46)]
    &&& r->Row_0@[0].node == WorkspaceLayout::Panel(PanelId::ProjectConfig)
    &&& child_sizes(r->Row_0@[1].node) == seq![Size::Percentage(68), Size::Percentage(32)]
    &&& r->Row_0@.len() == 2
    &&& panel_column(
        r->Row_0@[1].node,
        seq![
            (Size::Percentage(68), PanelId::ExportTargets),
            (Size::Percentage(32), PanelId::EditorPreferences),
        ],
    )
}

/// The layout of the project workspace.
pub fn project_workspace_layout() -> (r: WorkspaceLayout)
    ensures
        project_layout(r),
{
    let left = child(Size::Length(32), panel(PanelId::ProjectConfig));
    let right = child(
        Size::Min(46),
        pair_column(
            Size::Percentage(68),
            PanelId::ExportTargets,
            Size::Percentage(32),
            PanelId::EditorPreferences,
        ),
    );
    let cs = vec![left, right];
    proof {
        lemma_two_children(left, right, cs@);
        assert(layout_panels(left.node) + layout_panels(right.node) =~= project_panels());
        assert(cs@.map_values(|c: LayoutChild| c.size) =~= seq![Size::Length(32), Size::Min(46)]);
    }
    row(cs)
}

/// The layout of workspace tab `tab`.
pub fn workspace_layout_for_tab(tab: WorkspaceTab) -> (r: WorkspaceLayout)
    ensures
        layout_panels(r) == tab_panels(tab),
        tab == WorkspaceTab::Theme ==> theme_layout(r),
        tab == WorkspaceTab::Project ==> project_layout(r),
{
    match tab {
        WorkspaceTab::Theme => default_workspace_layout(),
        WorkspaceTab::Project => project_workspace_layout(),
    }
}

/// Appends the panels of `layout` to `panels`, depth first.
fn collect_panel_order(layout: &WorkspaceLayout, panels: &mut Vec<PanelId>)
    ensures
        final(panels)@ == old(panels)@ + layout_panels(*layout),
    decreases *layout, 1nat,
{
    match layout {
        WorkspaceLayout::Row(children) => {
            proof {
                assert(decreases_to!(*layout => (*layout)->Row_0));
            }
            collect_children(children, panels);
        },
        WorkspaceLayout::Column(children) => {
            proof {
                assert(decreases_to!(*layout => (*layout)->Column_0));
            }
            collect_children(children, panels);
        },
        WorkspaceLayout::Panel(id) => {
            panels.push(*id);
        },
        WorkspaceLayout::StatusBar => {
            assert(old(panels)@ + Seq::<PanelId>::empty() =~= old(panels)@);
        },
    }
}

/// Appends the panels of every child in `children` to `panels`.
fn collect_children(children: &Vec<LayoutChild>, panels: &mut Vec<PanelId>)
    ensures
        final(panels)@ == old(panels)@ + children_panels(children@, children@.len() as int),
    decreases *children, 0nat,
{
    let ghost start = panels@;
    let mut i: usize = 0;
    assert(start + children_panels(children@, 0) =~= start);
    while i < children.len()
        invariant
            i <= children.len(),
            panels@ == start + children_panels(children@, i as int),
        decreases children.len() - i,
    {
        proof {
            let cs = *children;
            assert(decreases_to!(cs => cs@));
            assert(decreases_to!(cs@ => cs@[i as int]));
            assert(decreases_to!(cs@[i as int] => cs@[i as int].node));
        }
        collect_panel_order(&children[i].node, panels);
        assert(start + children_panels(children@, i + 1) =~= start + children_panels(
            children@,
            i as int,
        ) + layout_panels(children@[i as int].node));
        i = i + 1;
    }
}

/// The panels of `layout`, depth first, left to right.
pub fn panel_order(layout: &WorkspaceLayout) -> (r: Vec<PanelId>)
    ensures
        r@ == layout_panels(*layout),
{
    let mut panels = Vec::new();
    collect_panel_order(layout, &mut panels);
    assert(Seq::<PanelId>::empty() + layout_panels(*layout) =~= layout_panels(*layout));
    panels
}

/// The panels that workspace tab `tab` shows, in layout order.
pub fn visible_panels_for_tab(tab: WorkspaceTab) -> (r: Vec<PanelId>)
    ensures
        r@ == tab_panels(tab),
{
    panel_order(&workspace_layout_for_tab(tab))
}

/// A workspace layout shows only panels that belong to its tab.
pub proof fn law_layout_panels_belong_to_tab(tab: WorkspaceTab, i: int)
    requires
        0 <= i < tab_panels(tab).len(),
    ensures
        panel_tab(tab_panels(tab)[i]) == tab,
{
}

/// No panel appears twice in a workspace layout.
pub proof fn law_layout_panels_are_distinct(tab: WorkspaceTab, i: int, j: int)
    requires
        0 <= i < j < tab_panels(tab).len(),
    ensures
        tab_panels(tab)[i] != tab_panels(tab)[j],
{
}

/// The panel that digit `number` focuses on tab `tab`: the `number`-th visible panel,
/// counting from 1 (0 counts as 1).
pub fn panel_for_number(tab: WorkspaceTab, number: u8) -> (r: Option<PanelId>)
    ensures
        ({
            let i = if number == 0 {
                0
            } else {
                number - 1
            };
            r == if i < tab_panels(tab).len() {
                Some(tab_panels(tab)[i])
            } else {
                None::<PanelId>
            }
        }),
{
    let panels = visible_panels_for_tab(tab);
    let index: usize = if number == 0 {
        0
    } else {
        (number - 1) as usize
    };
    if index < panels.len() {
        Some(panels[index])
    } else {
        None
    }
}

} // verus!
