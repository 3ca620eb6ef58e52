use vstd::prelude::*;

use crate::interaction::state::InteractionState;
use crate::interaction::surface::{panel_surface, SurfaceId};
use crate::layout::{tab_panels, visible_panels_for_tab};
use crate::ui_meta::panel_tab;
use crate::workspace::{PanelId, WorkspaceTab};

verus! {

/// Which tab bar a surface's tab keys drive.
#[derive(Debug, Clone, Copy, PartialEq, Eq, Structural)]
pub enum TabScope {
    Global,
    Workspace(WorkspaceTab),
    PreviewLocal,
    Modal,
}

/// What activating a surface does by default.
#[derive(Debug, Clone, Copy, PartialEq, Eq, Structural)]
pub enum DefaultAction {
    Nothing,
    Activate,
    Open,
    Edit,
}

/// How a surface lets the user move between its children.
#[derive(Debug, Clone, Copy, PartialEq, Eq, Structural)]
pub enum ChildNavigation {
    Off,
    Numbered,
    Sequential,
}

/// Whether unhandled input moves on to the parent surface.
#[derive(Debug, Clone, Copy, PartialEq, Eq, Structural)]
pub enum BubblePolicy {
    Bubble,
    Stop,
}

/// One surface of the interaction tree.
#[derive(Debug, Clone, PartialEq, Eq)]
pub struct SurfaceNode {
    pub id: SurfaceId,
    pub parent: Option<SurfaceId>,
    pub children: Vec<SurfaceId>,
    pub focusable: bool,
    pub visible: bool,
    pub tab_scope_owner: Option<SurfaceId>,
    pub tab_scope: TabScope,
    pub default_action: DefaultAction,
    pub child_navigation: ChildNavigation,
    pub bubble_policy: BubblePolicy,
    pub view_anchor: Option<SurfaceId>,
}

impl SurfaceNode {
    /// A node with the given properties.
    pub fn new(
        id: SurfaceId,
        parent: Option<SurfaceId>,
        children: Vec<SurfaceId>,
        focusable: bool,
        visible: bool,
        tab_scope_owner: Option<SurfaceId>,
        tab_scope: TabScope,
        default_action: DefaultAction,
        child_navigation: ChildNavigation,
        bubble_policy: BubblePolicy,
        view_anchor: Option<SurfaceId>,
    ) -> (r: Self)
        ensures
            r == (SurfaceNode {
                id,
                parent,
                children,
                focusable,
                visible,
                tab_scope_owner,
                tab_scope,
                default_action,
                child_navigation,
                bubble_policy,
                view_anchor,
            }),
    {
        SurfaceNode {
            id,
            parent,
            children,
            focusable,
            visible,
            tab_scope_owner,
            tab_scope,
            default_action,
            child_navigation,
            bubble_policy,
            view_anchor,
        }
    }
}

/// The surfaces of the user interface, each linked to its parent.
#[derive(Debug, Clone, PartialEq, Eq)]
pub struct InteractionTree {
    nodes: Vec<SurfaceNode>,
}

/// The first index at or after `from` of a node with identifier `id`.
pub open spec fn find_node_from(nodes: Seq<SurfaceNode>, id: SurfaceId, from: int) -> Option<int>
    decreases nodes.len() - from,
{
    if from < 0 || from >= nodes.len() {
        None
    } else if nodes[from].id == id {
        Some(from)
    } else {
        find_node_from(nodes, id, from + 1)
    }
}

/// The node that a lookup of `id` finds: the first one with that identifier.
pub open spec fn lookup(nodes: Seq<SurfaceNode>, id: SurfaceId) -> Option<SurfaceNode> {
    match find_node_from(nodes, id, 0) {
        Some(i) => Some(nodes[i]),
        None => None,
    }
}

/// The parent that the node of `id` names.
pub open spec fn lookup_parent(nodes: Seq<SurfaceNode>, id: SurfaceId) -> Option<SurfaceId> {
    match lookup(nodes, id) {
        Some(n) => n.parent,
        None => None,
    }
}

/// Visibility of `id` found by following at most `fuel` parent links: a surface is visible
/// when it exists, is itself visible, and so is its parent, if any. `None` when the
/// parent chain is longer than `fuel` (it then loops).
pub open spec fn visible_within(nodes: Seq<SurfaceNode>, id: SurfaceId, fuel: nat) -> Option<bool>
    decreases fuel,
{
    match lookup(nodes, id) {
        None => Some(false),
        Some(n) => if !n.visible {
            Some(false)
        } else {
            match n.parent {
                None => Some(true),
                Some(p) => if fuel == 0 {
                    None
                } else {
                    visible_within(nodes, p, (fuel - 1) as nat)
                },
            }
        },
    }
}

proof fn lemma_find_node_from(nodes: Seq<SurfaceNode>, id: SurfaceId, from: int)
    requires
        0 <= from,
    ensures
        find_node_from(nodes, id, from) matches Some(i) ==> from <= i < nodes.len() && nodes[i].id
            == id,
    decreases nodes.len() - from,
{
    if 0 <= from < nodes.len() && nodes[from].id != id {
        lemma_find_node_from(nodes, id, from + 1);
    }
}

impl InteractionTree {
    /// The nodes of the tree, in the order they were given.
    pub closed spec fn spec_nodes(&self) -> Seq<SurfaceNode> {
        self.nodes@
    }

    /// A tree over `nodes`.
    pub fn new(nodes: Vec<SurfaceNode>) -> (r: Self)
        ensures
            r.spec_nodes() == nodes@,
    {
        InteractionTree { nodes }
    }

    /// The node of surface `id`, if the tree has one.
    pub fn node(&self, id: SurfaceId) -> (r: Option<&SurfaceNode>)
        ensures
            match r {
                Some(n) => lookup(self.spec_nodes(), id) == Some(*n),
                None => lookup(self.spec_nodes(), id) is None,
            },
    {
        let mut i: usize = 0;
        while i < self.nodes.len()
            invariant
                i <= self.nodes.len(),
                find_node_from(self.nodes@, id, 0) == find_node_from(self.nodes@, id, i as int),
            decreases self.nodes.len() - i,
        {
            if self.nodes[i].id == id {
                return Some(&self.nodes[i]);
            }
            i = i + 1;
        }
        None
    }

    /// The parent of surface `id`, if it has a node and that node a parent.
    pub fn parent_of(&self, id: SurfaceId) -> (r: Option<SurfaceId>)
        ensures
            r == lookup_parent(self.spec_nodes(), id),
    {
        match self.node(id) {
            Some(node) => node.parent,
            None => None,
        }
    }

    /// Whether surface `id` and all its ancestors are visible.
    ///
    /// The parent chain from `id` must end: a chain that loops through visible surfaces
    /// would never be decided.
    pub fn is_visible(&self, id: SurfaceId) -> (r: bool)
        requires
            visible_within(self.spec_nodes(), id, self.spec_nodes().len()) is Some,
        ensures
            Some(r) == visible_within(self.spec_nodes(), id, self.spec_nodes().len()),
    {
        let ghost nodes = self.nodes@;
        let mut current = id;
        let mut fuel: usize = self.nodes.len();
        loop
            invariant
                nodes == self.nodes@,
                fuel <= nodes.len(),
                visible_within(nodes, current, fuel as nat) is Some,
                visible_within(nodes, current, fuel as nat) == visible_within(
                    nodes,
                    id,
                    nodes.len(),
                ),
            decreases fuel,
        {
            match self.node(current) {
                None => {
                    return false;
                },
                Some(node) => {
                    if !node.visible {
                        return false;
                    }
                    match node.parent {
                        None => {
                            return true;
                        },
                        Some(parent) => {
                            current = parent;
                            fuel = fuel - 1;
                        },
                    }
                },
            }
        }
    }
}

/// The node that owns child navigation for `node`: `owner` itself, or the parent of
/// `node` when that parent is `owner`.
pub fn resolve_child_navigation_owner<'a>(
    tree: &'a InteractionTree,
    node: &SurfaceNode,
    owner: SurfaceId,
) -> (r: Option<&'a SurfaceNode>)
    ensures
        (node.id == owner || lookup_parent(tree.spec_nodes(), node.id) == Some(owner)) ==> match r {
            Some(n) => lookup(tree.spec_nodes(), owner) == Some(*n),
            None => lookup(tree.spec_nodes(), owner) is None,
        },
        !(node.id == owner || lookup_parent(tree.spec_nodes(), node.id) == Some(owner)) ==> r is None,
{
    if node.id == owner {
        return tree.node(owner);
    }
    if tree.parent_of(node.id) == Some(owner) {
        return tree.node(owner);
    }
    None
}

/// Which modal surfaces the application has open.
#[derive(Debug, Clone, Copy, PartialEq, Eq, Structural)]
pub struct OpenModals {
    pub text_input: bool,
    pub source_picker: bool,
    pub config: bool,
    pub command_palette: bool,
    pub shortcut_help: bool,
}

/// Mathematical model of a node: its fields, with the children as a sequence.
pub struct NodeModel {
    pub id: SurfaceId,
    pub parent: Option<SurfaceId>,
    pub children: Seq<SurfaceId>,
    pub focusable: bool,
    pub visible: bool,
    pub tab_scope_owner: Option<SurfaceId>,
    pub tab_scope: TabScope,
    pub default_action: DefaultAction,
    pub child_navigation: ChildNavigation,
    pub bubble_policy: BubblePolicy,
    pub view_anchor: Option<SurfaceId>,
}

/// The model of node `n`.
pub open spec fn node_model(n: SurfaceNode) -> NodeModel {
    NodeModel {
        id: n.id,
        parent: n.parent,
        children: n.children@,
        focusable: n.focusable,
        visible: n.visible,
        tab_scope_owner: n.tab_scope_owner,
        tab_scope: n.tab_scope,
        default_action: n.default_action,
        child_navigation: n.child_navigation,
        bubble_policy: n.bubble_policy,
        view_anchor: n.view_anchor,
    }
}

/// Whether `modal` is one of the modal surfaces and is open.
pub open spec fn modal_open(open: OpenModals, modal: SurfaceId) -> bool {
    match modal {
        SurfaceId::NumericEditorSurface => open.text_input,
        SurfaceId::SourcePicker => open.source_picker,
        SurfaceId::ConfigDialog => open.config,
        SurfaceId::CommandPalette => open.command_palette,
        SurfaceId::ShortcutHelp => open.shortcut_help,
        _ => false,
    }
}

/// The first index at or after `from` at which `path` holds `s`.
pub open spec fn find_surface_from(path: Seq<SurfaceId>, s: SurfaceId, from: int) -> Option<int>
    decreases path.len() - from,
{
    if from < 0 || from >= path.len() {
        None
    } else if path[from] == s {
        Some(from)
    } else {
        find_surface_from(path, s, from + 1)
    }
}

/// Where an open modal hangs in the tree: under the surface before it on the focus path
/// (none when it starts the path), else under the focused surface (the main window when
/// nothing is focused). A closed modal hangs nowhere.
pub open spec fn modal_parent(open: OpenModals, path: Seq<SurfaceId>, modal: SurfaceId) -> Option<
    SurfaceId,
> {
    if !modal_open(open, modal) {
        None
    } else {
        match find_surface_from(path, modal, 0) {
            Some(i) => if i == 0 {
                None
            } else {
                Some(path[i - 1])
            },
            None => if path.len() > 0 {
                Some(path.last())
            } else {
                Some(SurfaceId::MainWindow)
            },
        }
    }
}

/// `modal` alone when it hangs under `surface`, else nothing.
pub open spec fn modal_if_under(
    open: OpenModals,
    path: Seq<SurfaceId>,
    modal: SurfaceId,
    surface: SurfaceId,
) -> Seq<SurfaceId> {
    if modal_parent(open, path, modal) == Some(surface) {
        seq![modal]
    } else {
        Seq::empty()
    }
}

/// The modals that hang under `surface`, in a fixed order.
pub open spec fn modal_children(open: OpenModals, path: Seq<SurfaceId>, surface: SurfaceId) -> Seq<
    SurfaceId,
> {
    modal_if_under(open, path, SurfaceId::NumericEditorSurface, surface) + modal_if_under(
        open,
        path,
        SurfaceId::SourcePicker,
        surface,
    ) + modal_if_under(open, path, SurfaceId::ConfigDialog, surface) + modal_if_under(
        open,
        path,
        SurfaceId::CommandPalette,
        surface,
    ) + modal_if_under(open, path, SurfaceId::ShortcutHelp, surface)
}

/// Whether panel `p` is shown by workspace tab `tab`.
pub open spec fn panel_shown(tab: WorkspaceTab, p: PanelId) -> bool {
    tab_panels(tab).contains(p)
}

/// The parent of a panel's surface: the main window while the panel is shown.
pub open spec fn workspace_parent(tab: WorkspaceTab, p: PanelId) -> Option<SurfaceId> {
    if panel_shown(tab, p) {
        Some(SurfaceId::MainWindow)
    } else {
        None
    }
}

/// Every surface, in the order in which the tree lists their nodes.
pub open spec fn surface_order() -> Seq<SurfaceId> {
    seq![
        SurfaceId::AppRoot,
        SurfaceId::MainWindow,
        SurfaceId::TokensPanel,
        SurfaceId::ParamsPanel,
        SurfaceId::PreviewPanel,
        SurfaceId::PreviewTabs,
        SurfaceId::PreviewBody,
        SurfaceId::ResolvedPrimaryPanel,
        SurfaceId::ResolvedSecondaryPanel,
        SurfaceId::PalettePanel,
        SurfaceId::InspectorPanel,
        SurfaceId::InteractionInspectorPanel,
        SurfaceId::ProjectConfigPanel,
        SurfaceId::ExportTargetsPanel,
        SurfaceId::EditorPreferencesPanel,
        SurfaceId::NumericEditorSurface,
        SurfaceId::SourcePicker,
        SurfaceId::ConfigDialog,
        SurfaceId::CommandPalette,
        SurfaceId::ShortcutHelp,
    ]
}

/// The node that the tree holds for surface `id`.
pub open spec fn expected_node(
    id: SurfaceId,
    tab: WorkspaceTab,
    open: OpenModals,
    path: Seq<SurfaceId>,
) -> NodeModel {
    let mc = modal_children(open, path, id);
    match id {
        SurfaceId::AppRoot => NodeModel {
            id,
            parent: None,
            children: seq![SurfaceId::MainWindow] + mc,
            focusable: false,
            visible: true,
            tab_scope_owner: None,
            tab_scope: TabScope::Global,
            default_action: DefaultAction::Nothing,
            child_navigation: ChildNavigation::Off,
            bubble_policy: BubblePolicy::Stop,
            view_anchor: None,
        },
        SurfaceId::MainWindow => NodeModel {
            id,
            parent: Some(SurfaceId::AppRoot),
            children: tab_panels(tab).map_values(|p: PanelId| panel_surface(p)) + mc,
            focusable: true,
            visible: true,
            tab_scope_owner: None,
            tab_scope: TabScope::Global,
            default_action: DefaultAction::Nothing,
            child_navigation: ChildNavigation::Off,
            bubble_policy: BubblePolicy::Bubble,
            view_anchor: Some(SurfaceId::AppRoot),
        },
        SurfaceId::PreviewPanel => NodeModel {
            id,
            parent: workspace_parent(tab, PanelId::Preview),
            children: seq![SurfaceId::PreviewTabs, SurfaceId::PreviewBody] + mc,
            focusable: true,
            visible: panel_shown(tab, PanelId::Preview),
            tab_scope_owner: None,
            tab_scope: TabScope::Workspace(WorkspaceTab::Theme),
            default_action: DefaultAction::Activate,
            child_navigation: ChildNavigation::Sequential,
            bubble_policy: BubblePolicy::Bubble,
            view_anchor: Some(SurfaceId::MainWindow),
        },
        SurfaceId::PreviewTabs => NodeModel {
            id,
            parent: Some(SurfaceId::PreviewPanel),
            children: mc,
            focusable: true,
            visible: panel_shown(tab, PanelId::Preview),
            tab_scope_owner: None,
            tab_scope: TabScope::PreviewLocal,
            default_action: DefaultAction::Activate,
            child_navigation: ChildNavigation::Off,
            bubble_policy: BubblePolicy::Bubble,
            view_anchor: Some(SurfaceId::PreviewPanel),
        },
        SurfaceId::PreviewBody => NodeModel {
            id,
            parent: Some(SurfaceId::PreviewPanel),
            children: mc,
            focusable: true,
            visible: panel_shown(tab, PanelId::Preview),
            tab_scope_owner: Some(SurfaceId::PreviewTabs),
            tab_scope: TabScope::Workspace(WorkspaceTab::Theme),
            default_action: DefaultAction::Open,
            child_navigation: ChildNavigation::Off,
            bubble_policy: BubblePolicy::Bubble,
            view_anchor: Some(SurfaceId::PreviewPanel),
        },
        SurfaceId::NumericEditorSurface | SurfaceId::SourcePicker | SurfaceId::ConfigDialog
        | SurfaceId::CommandPalette | SurfaceId::ShortcutHelp => NodeModel {
            id,
            parent: modal_parent(open, path, id),
            children: mc,
            focusable: true,
            visible: modal_open(open, id),
            tab_scope_owner: None,
            tab_scope: TabScope::Modal,
            default_action: if id == SurfaceId::NumericEditorSurface {
                DefaultAction::Edit
            } else {
                DefaultAction::Open
            },
            child_navigation: ChildNavigation::Off,
            bubble_policy: BubblePolicy::Stop,
            view_anchor: modal_parent(open, path, id),
        },
        _ => {
            let p = surface_panel_of(id);
            NodeModel {
                id,
                parent: workspace_parent(tab, p),
                children: mc,
                focusable: true,
                visible: panel_shown(tab, p),
                tab_scope_owner: None,
                tab_scope: TabScope::Workspace(panel_tab(p)),
                default_action: if id == SurfaceId::ParamsPanel {
                    DefaultAction::Edit
                } else {
                    DefaultAction::Activate
                },
                child_navigation: ChildNavigation::Off,
                bubble_policy: BubblePolicy::Bubble,
                view_anchor: Some(SurfaceId::MainWindow),
            }
        },
    }
}

/// The panel of a panel surface (`Tokens` for surfaces that belong to no panel).
pub open spec fn surface_panel_of(id: SurfaceId) -> PanelId {
    match crate::interaction::surface::surface_panel(id) {
        Some(p) => p,
        None => PanelId::Tokens,
    }
}

/// The tree for the given application state: the visible panels of `tab`, the open modals
/// hung on the focus path of `interaction`.
pub open spec fn tree_holds(
    nodes: Seq<SurfaceNode>,
    tab: WorkspaceTab,
    open: OpenModals,
    path: Seq<SurfaceId>,
) -> bool {
    &&& nodes.len() == surface_order().len()
    &&& forall|i: int|
        0 <= i < nodes.len() ==> node_model(#[trigger] nodes[i]) == expected_node(
            surface_order()[i],
            tab,
            open,
            path,
        )
}

fn is_modal_open(open: OpenModals, modal: SurfaceId) -> (r: bool)
    ensures
        r == modal_open(open, modal),
{
    match modal {
        SurfaceId::NumericEditorSurface => open.text_input,
        SurfaceId::SourcePicker => open.source_picker,
        SurfaceId::ConfigDialog => open.config,
        SurfaceId::CommandPalette => open.command_palette,
        SurfaceId::ShortcutHelp => open.shortcut_help,
        _ => false,
    }
}

/// The parent of `modal` in the tree (see [`modal_parent`]).
fn modal_parent_of(open: OpenModals, path: &Vec<SurfaceId>, modal: SurfaceId) -> (r: Option<
    SurfaceId,
>)
    ensures
        r == modal_parent(open, path@, modal),
{
    if !is_modal_open(open, modal) {
        return None;
    }
    let mut i: usize = 0;
    while i < path.len()
        invariant
            i <= path.len(),
            modal_open(open, modal),
            find_surface_from(path@, modal, 0) == find_surface_from(path@, modal, i as int),
        decreases path.len() - i,
    {
        if path[i] == modal {
            if i == 0 {
                return None;
            } else {
                return Some(path[i - 1]);
            }
        }
        i = i + 1;
    }
    if path.len() > 0 {
        Some(path[path.len() - 1])
    } else {
        Some(SurfaceId::MainWindow)
    }
}

/// The parents of the five modals, in the fixed modal order.
struct ModalParents {
    numeric: Option<SurfaceId>,
    source_picker: Option<SurfaceId>,
    config: Option<SurfaceId>,
    command_palette: Option<SurfaceId>,
    shortcut_help: Option<SurfaceId>,
}

impl ModalParents {
    spec fn describes(self, open: OpenModals, path: Seq<SurfaceId>) -> bool {
        &&& self.numeric == modal_parent(open, path, SurfaceId::NumericEditorSurface)
        &&& self.source_picker == modal_parent(open, path, SurfaceId::SourcePicker)
        &&& self.config == modal_parent(open, path, SurfaceId::ConfigDialog)
        &&& self.command_palette == modal_parent(open, path, SurfaceId::CommandPalette)
        &&& self.shortcut_help == modal_parent(open, path, SurfaceId::ShortcutHelp)
    }
}

fn push_if_under(out: &mut Vec<SurfaceId>, parent: Option<SurfaceId>, modal: SurfaceId, surface: SurfaceId)
    ensures
        final(out)@ == old(out)@ + (if parent == Some(surface) {
            seq![modal]
        } else {
            Seq::empty()
        }),
{
    if parent == Some(surface) {
        out.push(modal);
    } else {
        assert(old(out)@ + Seq::<SurfaceId>::empty() =~= old(out)@);
    }
}

/// Appends the modals that hang under `surface` to `out`.
fn append_modal_children(
    out: &mut Vec<SurfaceId>,
    parents: &ModalParents,
    surface: SurfaceId,
    Ghost(open): Ghost<OpenModals>,
    Ghost(path): Ghost<Seq<SurfaceId>>,
)
    requires
        parents.describes(open, path),
    ensures
        final(out)@ == old(out)@ + modal_children(open, path, surface),
{
    push_if_under(out, parents.numeric, SurfaceId::NumericEditorSurface, surface);
    push_if_under(out, parents.source_picker, SurfaceId::SourcePicker, surface);
    push_if_under(out, parents.config, SurfaceId::ConfigDialog, surface);
    push_if_under(out, parents.command_palette, SurfaceId::CommandPalette, surface);
    push_if_under(out, parents.shortcut_help, SurfaceId::ShortcutHelp, surface);
    assert(out@ =~= old(out)@ + modal_children(open, path, surface));
}

/// Whether `p` is among `shown`.
fn contains_panel(shown: &Vec<PanelId>, p: PanelId) -> (r: bool)
    ensures
        r == shown@.contains(p),
{
    let mut i: usize = 0;
    while i < shown.len()
        invariant
            i <= shown.len(),
            forall|j: int| 0 <= j < i ==> shown@[j] != p,
        decreases shown.len() - i,
    {
        if shown[i] == p {
            return true;
        }
        i = i + 1;
    }
    false
}

/// The panel of a panel surface (`Tokens` for surfaces that belong to no panel).
fn panel_of_surface(id: SurfaceId) -> (r: PanelId)
    ensures
        r == surface_panel_of(id),
{
    match id.panel_id() {
        Some(p) => p,
        None => PanelId::Tokens,
    }
}

/// The node of surface `id` (see [`expected_node`]).
fn node_for(
    id: SurfaceId,
    tab: WorkspaceTab,
    shown: &Vec<PanelId>,
    parents: &ModalParents,
    open: OpenModals,
    Ghost(path): Ghost<Seq<SurfaceId>>,
) -> (r: SurfaceNode)
    requires
        shown@ == tab_panels(tab),
        parents.describes(open, path),
    ensures
        node_model(r) == expected_node(id, tab, open, path),
{
    let mut children: Vec<SurfaceId> = Vec::new();
    match id {
        SurfaceId::AppRoot => {
            children.push(SurfaceId::MainWindow);
            append_modal_children(&mut children, parents, id, Ghost(open), Ghost(path));
            SurfaceNode::new(
                id,
                None,
                children,
                false,
                true,
                None,
                TabScope::Global,
                DefaultAction::Nothing,
                ChildNavigation::Off,
                BubblePolicy::Stop,
                None,
            )
        },
        SurfaceId::MainWindow => {
            let mut i: usize = 0;
            while i < shown.len()
                invariant
                    i <= shown.len(),
                    children@ == shown@.take(i as int).map_values(|p: PanelId| panel_surface(p)),
                decreases shown.len() - i,
            {
                children.push(SurfaceId::workspace_surface(shown[i]));
                assert(shown@.take(i + 1) =~= shown@.take(i as int).push(shown@[i as int]));
                assert(children@ =~= shown@.take(i + 1).map_values(|p: PanelId| panel_surface(p)));
                i = i + 1;
            }
            assert(shown@.take(shown.len() as int) =~= shown@);
            append_modal_children(&mut children, parents, id, Ghost(open), Ghost(path));
            SurfaceNode::new(
                id,
                Some(SurfaceId::AppRoot),
                children,
                true,
                true,
                None,
                TabScope::Global,
                DefaultAction::Nothing,
                ChildNavigation::Off,
                BubblePolicy::Bubble,
                Some(SurfaceId::AppRoot),
            )
        },
        SurfaceId::PreviewPanel => {
            let shown_here = contains_panel(shown, PanelId::Preview);
            children.push(SurfaceId::PreviewTabs);
            children.push(SurfaceId::PreviewBody);
            append_modal_children(&mut children, parents, id, Ghost(open), Ghost(path));
            assert(children@ =~= seq![SurfaceId::PreviewTabs, SurfaceId::PreviewBody]
                + modal_children(open, path, id));
            SurfaceNode::new(
                id,
                if shown_here {
                    Some(SurfaceId::MainWindow)
                } else {
                    None
                },
                children,
                true,
                shown_here,
                None,
                TabScope::Workspace(WorkspaceTab::Theme),
                DefaultAction::Activate,
                ChildNavigation::Sequential,
                BubblePolicy::Bubble,
                Some(SurfaceId::MainWindow),
            )
        },
        SurfaceId::PreviewTabs => {
            let shown_here = contains_panel(shown, PanelId::Preview);
            append_modal_children(&mut children, parents, id, Ghost(open), Ghost(path));
            assert(children@ =~= modal_children(open, path, id));
            SurfaceNode::new(
                id,
                Some(SurfaceId::PreviewPanel),
                children,
                true,
                shown_here,
                None,
                TabScope::PreviewLocal,
                DefaultAction::Activate,
                ChildNavigation::Off,
                BubblePolicy::Bubble,
                Some(SurfaceId::PreviewPanel),
            )
        },
        SurfaceId::PreviewBody => {
            let shown_here = contains_panel(shown, PanelId::Preview);
            append_modal_children(&mut children, parents, id, Ghost(open), Ghost(path));
            assert(children@ =~= modal_children(open, path, id));
            SurfaceNode::new(
                id,
                Some(SurfaceId::PreviewPanel),
                children,
                true,
                shown_here,
                Some(SurfaceId::PreviewTabs),
                TabScope::Workspace(WorkspaceTab::Theme),
                DefaultAction::Open,
                ChildNavigation::Off,
                BubblePolicy::Bubble,
                Some(SurfaceId::PreviewPanel),
            )
        },
        SurfaceId::NumericEditorSurface | SurfaceId::SourcePicker | SurfaceId::ConfigDialog
        | SurfaceId::CommandPalette | SurfaceId::ShortcutHelp => {
            let parent = match id {
                SurfaceId::NumericEditorSurface => parents.numeric,
                SurfaceId::SourcePicker => parents.source_picker,
                SurfaceId::ConfigDialog => parents.config,
                SurfaceId::CommandPalette => parents.command_palette,
                _ => parents.shortcut_help,
            };
            let visible = is_modal_open(open, id);
            append_modal_children(&mut children, parents, id, Ghost(open), Ghost(path));
            assert(children@ =~= modal_children(open, path, id));
            SurfaceNode::new(
                id,
                parent,
                children,
                true,
                visible,
                None,
                TabScope::Modal,
                if id == SurfaceId::NumericEditorSurface {
                    DefaultAction::Edit
                } else {
                    DefaultAction::Open
                },
                ChildNavigation::Off,
                BubblePolicy::Stop,
                parent,
            )
        },
        _ => {
            let p = panel_of_surface(id);
            let shown_here = contains_panel(shown, p);
            append_modal_children(&mut children, parents, id, Ghost(open), Ghost(path));
            assert(children@ =~= modal_children(open, path, id));
            SurfaceNode::new(
                id,
                if shown_here {
                    Some(SurfaceId::MainWindow)
                } else {
                    None
                },
                children,
                true,
                shown_here,
                None,
                TabScope::Workspace(crate::ui_meta::panel_workspace_tab(p)),
                if id == SurfaceId::ParamsPanel {
                    DefaultAction::Edit
                } else {
                    DefaultAction::Activate
                },
                ChildNavigation::Off,
                BubblePolicy::Bubble,
                Some(SurfaceId::MainWindow),
            )
        },
    }
}

/// Every surface, in node order.
fn surface_order_exec() -> (r: [SurfaceId; 20])
    ensures
        r@ == surface_order(),
{
    [
        SurfaceId::AppRoot,
        SurfaceId::MainWindow,
        SurfaceId::TokensPanel,
        SurfaceId::ParamsPanel,
        SurfaceId::PreviewPanel,
        SurfaceId::PreviewTabs,
        SurfaceId::PreviewBody,
        SurfaceId::ResolvedPrimaryPanel,
        SurfaceId::ResolvedSecondaryPanel,
        SurfaceId::PalettePanel,
        SurfaceId::InspectorPanel,
        SurfaceId::InteractionInspectorPanel,
        SurfaceId::ProjectConfigPanel,
        SurfaceId::ExportTargetsPanel,
        SurfaceId::EditorPreferencesPanel,
        SurfaceId::NumericEditorSurface,
        SurfaceId::SourcePicker,
        SurfaceId::ConfigDialog,
        SurfaceId::CommandPalette,
        SurfaceId::ShortcutHelp,
    ]
}

/// The interaction tree of the application: one node per surface, the panels of
/// `active_tab` under the main window, and each open modal under the surface that opened it
/// (see [`expected_node`]).
pub fn build_interaction_tree(
    active_tab: WorkspaceTab,
    open: OpenModals,
    interaction: &InteractionState,
) -> (r: InteractionTree)
    ensures
        tree_holds(r.spec_nodes(), active_tab, open, interaction@.focus_path),
{
    let ghost path = interaction@.focus_path;
    let shown = visible_panels_for_tab(active_tab);
    let fp = &interaction.focus_path;
    let parents = ModalParents {
        numeric: modal_parent_of(open, fp, SurfaceId::NumericEditorSurface),
        source_picker: modal_parent_of(open, fp, SurfaceId::SourcePicker),
        config: modal_parent_of(open, fp, SurfaceId::ConfigDialog),
        command_palette: modal_parent_of(open, fp, SurfaceId::CommandPalette),
        shortcut_help: modal_parent_of(open, fp, SurfaceId::ShortcutHelp),
    };
    let order = surface_order_exec();
    let mut nodes: Vec<SurfaceNode> = Vec::new();
    for i in 0..20
        invariant
            order@ == surface_order(),
            shown@ == tab_panels(active_tab),
            parents.describes(open, path),
            path == interaction@.focus_path,
            nodes@.len() == i,
            forall|j: int|
                0 <= j < i ==> node_model(#[trigger] nodes@[j]) == expected_node(
                    surface_order()[j],
                    active_tab,
                    open,
                    path,
                ),
    {
        let node = node_for(order[i], active_tab, &shown, &parents, open, Ghost(path));
        nodes.push(node);
    }
    InteractionTree::new(nodes)
}

/// The position of surface `s` in [`surface_order`].
pub open spec fn surface_index(s: SurfaceId) -> int {
    match s {
        SurfaceId::AppRoot => 0,
        SurfaceId::MainWindow => 1,
        SurfaceId::TokensPanel => 2,
        SurfaceId::ParamsPanel => 3,
        SurfaceId::PreviewPanel => 4,
        SurfaceId::PreviewTabs => 5,
        SurfaceId::PreviewBody => 6,
        SurfaceId::ResolvedPrimaryPanel => 7,
        SurfaceId::ResolvedSecondaryPanel => 8,
        SurfaceId::PalettePanel => 9,
        SurfaceId::InspectorPanel => 10,
        SurfaceId::InteractionInspectorPanel => 11,
        SurfaceId::ProjectConfigPanel => 12,
        SurfaceId::ExportTargetsPanel => 13,
        SurfaceId::EditorPreferencesPanel => 14,
        SurfaceId::NumericEditorSurface => 15,
        SurfaceId::SourcePicker => 16,
        SurfaceId::ConfigDialog => 17,
        SurfaceId::CommandPalette => 18,
        SurfaceId::ShortcutHelp => 19,
    }
}

proof fn lemma_find_unique(nodes: Seq<SurfaceNode>, i: int, from: int)
    requires
        0 <= from <= i < nodes.len(),
        forall|j: int| 0 <= j < i ==> nodes[j].id != nodes[i].id,
    ensures
        find_node_from(nodes, nodes[i].id, from) == Some(i),
    decreases i - from,
{
    if from < i {
        lemma_find_unique(nodes, i, from + 1);
    }
}

/// In a built tree, looking up any surface finds its own node.
pub(crate) proof fn lemma_lookup_built(
    nodes: Seq<SurfaceNode>,
    tab: WorkspaceTab,
    open: OpenModals,
    path: Seq<SurfaceId>,
    s: SurfaceId,
)
    requires
        tree_holds(nodes, tab, open, path),
    ensures
        lookup(nodes, s) == Some(nodes[surface_index(s)]),
        node_model(nodes[surface_index(s)]) == expected_node(s, tab, open, path),
        nodes[surface_index(s)].id == s,
{
    let i = surface_index(s);
    assert(surface_order()[i] == s);
    assert(node_model(nodes[i]) == expected_node(surface_order()[i], tab, open, path));
    assert forall|j: int| 0 <= j < i implies nodes[j].id != nodes[i].id by {
        assert(node_model(nodes[j]) == expected_node(surface_order()[j], tab, open, path));
    }
    lemma_find_unique(nodes, i, 0);
}

/// In a built tree, a surface's tab-scope owner has a node of its own, and that node
/// handles tab keys itself.
pub proof fn law_built_tree_tab_owners_end(
    nodes: Seq<SurfaceNode>,
    tab: WorkspaceTab,
    open: OpenModals,
    path: Seq<SurfaceId>,
    s: SurfaceId,
)
    requires
        tree_holds(nodes, tab, open, path),
    ensures
        lookup(nodes, s) matches Some(n) ==> (n.tab_scope_owner matches Some(o) ==> (lookup(
            nodes,
            o,
        ) matches Some(m) && m.tab_scope_owner is None)),
{
    lemma_lookup_built(nodes, tab, open, path, s);
    lemma_lookup_built(nodes, tab, open, path, SurfaceId::PreviewTabs);
}

/// A modal listed among the modal children of `surface` hangs under `surface`.
proof fn lemma_modal_child(open: OpenModals, path: Seq<SurfaceId>, surface: SurfaceId, k: int)
    requires
        0 <= k < modal_children(open, path, surface).len(),
    ensures
        ({
            let m = modal_children(open, path, surface)[k];
            &&& modal_parent(open, path, m) == Some(surface)
            &&& (m == SurfaceId::NumericEditorSurface || m == SurfaceId::SourcePicker || m
                == SurfaceId::ConfigDialog || m == SurfaceId::CommandPalette || m
                == SurfaceId::ShortcutHelp)
        }),
{
    let a = modal_if_under(open, path, SurfaceId::NumericEditorSurface, surface);
    let b = modal_if_under(open, path, SurfaceId::SourcePicker, surface);
    let c = modal_if_under(open, path, SurfaceId::ConfigDialog, surface);
    let d = modal_if_under(open, path, SurfaceId::CommandPalette, surface);
    let e = modal_if_under(open, path, SurfaceId::ShortcutHelp, surface);
    let all = modal_children(open, path, surface);
    assert(all == a + b + c + d + e);
    if k < a.len() {
        assert(all[k] == a[k]);
    } else if k < a.len() + b.len() {
        assert(all[k] == b[k - a.len()]);
    } else if k < a.len() + b.len() + c.len() {
        assert(all[k] == c[k - a.len() - b.len()]);
    } else if k < a.len() + b.len() + c.len() + d.len() {
        assert(all[k] == d[k - a.len() - b.len() - c.len()]);
    } else {
        assert(all[k] == e[k - a.len() - b.len() - c.len() - d.len()]);
    }
}

/// In the tree's description, every child of a surface names that surface as its parent.
proof fn lemma_child_names_parent(
    s: SurfaceId,
    tab: WorkspaceTab,
    open: OpenModals,
    path: Seq<SurfaceId>,
    k: int,
)
    requires
        0 <= k < expected_node(s, tab, open, path).children.len(),
    ensures
        expected_node(expected_node(s, tab, open, path).children[k], tab, open, path).parent
            == Some(s),
{
    let children = expected_node(s, tab, open, path).children;
    let mc = modal_children(open, path, s);
    let prefix_len: int = children.len() - mc.len();
    if k >= prefix_len {
        lemma_modal_child(open, path, s, k - prefix_len);
        assert(children[k] == mc[k - prefix_len]);
    } else if s == SurfaceId::MainWindow {
        let shown = tab_panels(tab);
        let p = shown[k];
        assert(children[k] == panel_surface(p));
        assert(surface_panel_of(panel_surface(p)) == p);
        assert(panel_shown(tab, p));
    }
}

/// In a built tree, every child of a node names that node as its parent.
pub proof fn law_tree_child_links_are_reciprocal(
    tree: InteractionTree,
    tab: WorkspaceTab,
    open: OpenModals,
    path: Seq<SurfaceId>,
    s: SurfaceId,
    k: int,
)
    requires
        tree_holds(tree.spec_nodes(), tab, open, path),
        lookup(tree.spec_nodes(), s) matches Some(n) && 0 <= k < n.children@.len(),
    ensures
        lookup_parent(tree.spec_nodes(), lookup(tree.spec_nodes(), s)->0.children@[k]) == Some(s),
{
    let nodes = tree.spec_nodes();
    lemma_lookup_built(nodes, tab, open, path, s);
    let c = nodes[surface_index(s)].children@[k];
    lemma_child_names_parent(s, tab, open, path, k);
    lemma_lookup_built(nodes, tab, open, path, c);
}

/// In a built tree, the panels that the active tab does not show hang nowhere, and those it
/// shows hang under the main window.
pub proof fn law_tree_panels_follow_active_tab(
    tree: InteractionTree,
    tab: WorkspaceTab,
    open: OpenModals,
    path: Seq<SurfaceId>,
    p: PanelId,
)
    requires
        tree_holds(tree.spec_nodes(), tab, open, path),
    ensures
        lookup_parent(tree.spec_nodes(), panel_surface(p)) == (if tab_panels(tab).contains(p) {
            Some(SurfaceId::MainWindow)
        } else {
            None
        }),
        lookup(tree.spec_nodes(), panel_surface(p))->0.visible == tab_panels(tab).contains(p),
{
    lemma_lookup_built(tree.spec_nodes(), tab, open, path, panel_surface(p));
    assert(surface_panel_of(panel_surface(p)) == p);
}

/// In a built tree, a modal surface is visible exactly when it is open, and an open modal
/// hangs under the surface before it on the focus path, or else under the focused surface.
pub proof fn law_tree_modals_follow_focus(
    tree: InteractionTree,
    tab: WorkspaceTab,
    open: OpenModals,
    path: Seq<SurfaceId>,
    m: SurfaceId,
)
    requires
        tree_holds(tree.spec_nodes(), tab, open, path),
        m == SurfaceId::NumericEditorSurface || m == SurfaceId::SourcePicker || m
            == SurfaceId::ConfigDialog || m == SurfaceId::CommandPalette || m
            == SurfaceId::ShortcutHelp,
    ensures
        lookup(tree.spec_nodes(), m)->0.visible == modal_open(open, m),
        lookup_parent(tree.spec_nodes(), m) == modal_parent(open, path, m),
{
    lemma_lookup_built(tree.spec_nodes(), tab, open, path, m);
}

/// Where a modal sits among the open modals: the first position of the modal on the focus
/// path, or just past the end of the path when it is not on it.
pub open spec fn modal_key(path: Seq<SurfaceId>, m: SurfaceId) -> int {
    match find_surface_from(path, m, 0) {
        Some(i) => i,
        None => path.len() as int,
    }
}

/// 1 when `a` is an open modal that sits before `b`, else 0.
pub open spec fn sits_before(open: OpenModals, path: Seq<SurfaceId>, a: SurfaceId, b: SurfaceId) -> int {
    if modal_open(open, a) && modal_key(path, a) < modal_key(path, b) {
        1
    } else {
        0
    }
}

/// A bound on how many parent links lead up from a visible surface: the root 0, the main
/// window 1, panels 2, the parts of the preview 3, and an open modal 4 plus the number of
/// open modals before it.
pub open spec fn surface_depth(open: OpenModals, path: Seq<SurfaceId>, s: SurfaceId) -> int {
    match s {
        SurfaceId::AppRoot => 0,
        SurfaceId::MainWindow => 1,
        SurfaceId::PreviewTabs | SurfaceId::PreviewBody => 3,
        SurfaceId::NumericEditorSurface | SurfaceId::SourcePicker | SurfaceId::ConfigDialog
        | SurfaceId::CommandPalette | SurfaceId::ShortcutHelp => if modal_open(open, s) {
            4 + sits_before(open, path, SurfaceId::NumericEditorSurface, s) + sits_before(
                open,
                path,
                SurfaceId::SourcePicker,
                s,
            ) + sits_before(open, path, SurfaceId::ConfigDialog, s) + sits_before(
                open,
                path,
                SurfaceId::CommandPalette,
                s,
            ) + sits_before(open, path, SurfaceId::ShortcutHelp, s)
        } else {
            0
        },
        _ => 2,
    }
}

proof fn lemma_find_surface_first(path: Seq<SurfaceId>, s: SurfaceId, from: int, k: int)
    requires
        0 <= from <= k < path.len(),
        path[k] == s,
    ensures
        find_surface_from(path, s, from) matches Some(j) && from <= j <= k && path[j] == s,
    decreases k - from,
{
    if path[from] != s {
        lemma_find_surface_first(path, s, from + 1, k);
    }
}

proof fn lemma_find_surface_found(path: Seq<SurfaceId>, s: SurfaceId, from: int)
    requires
        0 <= from,
    ensures
        find_surface_from(path, s, from) matches Some(j) ==> from <= j < path.len() && path[j] == s,
    decreases path.len() - from,
{
    if 0 <= from < path.len() && path[from] != s {
        lemma_find_surface_found(path, s, from + 1);
    }
}

/// The parent of a surface lies less deep than the surface.
proof fn lemma_parent_is_shallower(
    tab: WorkspaceTab,
    open: OpenModals,
    path: Seq<SurfaceId>,
    s: SurfaceId,
)
    requires
        expected_node(s, tab, open, path).parent is Some,
    ensures
        0 <= surface_depth(open, path, expected_node(s, tab, open, path).parent->0) < surface_depth(
            open,
            path,
            s,
        ),
{
    let p = expected_node(s, tab, open, path).parent->0;
    if s == SurfaceId::NumericEditorSurface || s == SurfaceId::SourcePicker || s
        == SurfaceId::ConfigDialog || s == SurfaceId::CommandPalette || s
        == SurfaceId::ShortcutHelp {
        lemma_find_surface_found(path, s, 0);
        match find_surface_from(path, s, 0) {
            Some(i) => {
                lemma_find_surface_first(path, p, 0, i - 1);
            },
            None => {
                if path.len() > 0 {
                    lemma_find_surface_first(path, p, 0, path.len() - 1);
                }
            },
        }
    }
}

/// In a built tree, following parent links from a surface settles its visibility within
/// `fuel` links when `fuel` is at least the surface's depth.
proof fn lemma_visibility_decided(
    nodes: Seq<SurfaceNode>,
    tab: WorkspaceTab,
    open: OpenModals,
    path: Seq<SurfaceId>,
    s: SurfaceId,
    fuel: nat,
)
    requires
        tree_holds(nodes, tab, open, path),
        fuel >= surface_depth(open, path, s),
    ensures
        visible_within(nodes, s, fuel) is Some,
    decreases fuel,
{
    lemma_lookup_built(nodes, tab, open, path, s);
    let e = expected_node(s, tab, open, path);
    if e.visible && e.parent is Some {
        lemma_parent_is_shallower(tab, open, path, s);
        lemma_visibility_decided(nodes, tab, open, path, e.parent->0, (fuel - 1) as nat);
    }
}

/// In a built tree every parent chain ends, so the visibility of every surface is decided
/// (and `InteractionTree::is_visible` may be asked about any surface).
pub proof fn law_built_tree_visibility_is_decided(
    tree: InteractionTree,
    tab: WorkspaceTab,
    open: OpenModals,
    path: Seq<SurfaceId>,
    s: SurfaceId,
)
    requires
        tree_holds(tree.spec_nodes(), tab, open, path),
    ensures
        visible_within(tree.spec_nodes(), s, tree.spec_nodes().len()) is Some,
{
    lemma_visibility_decided(tree.spec_nodes(), tab, open, path, s, tree.spec_nodes().len());
}

/// The chain of surfaces from `s` up through its parents, following at most `fuel` links.
pub open spec fn ancestors(
    tab: WorkspaceTab,
    open: OpenModals,
    path: Seq<SurfaceId>,
    s: SurfaceId,
    fuel: nat,
) -> Seq<SurfaceId>
    decreases fuel,
{
    match expected_node(s, tab, open, path).parent {
        Some(p) => if fuel > 0 {
            seq![s] + ancestors(tab, open, path, p, (fuel - 1) as nat)
        } else {
            seq![s]
        },
        None => seq![s],
    }
}

/// When `fuel` covers the depth of `s`, the chain of ancestors ends at a surface without a
/// parent.
proof fn lemma_ancestors_end(
    tab: WorkspaceTab,
    open: OpenModals,
    path: Seq<SurfaceId>,
    s: SurfaceId,
    fuel: nat,
)
    requires
        fuel >= surface_depth(open, path, s),
    ensures
        ancestors(tab, open, path, s, fuel).len() >= 1,
        ancestors(tab, open, path, s, fuel)[0] == s,
        expected_node(ancestors(tab, open, path, s, fuel).last(), tab, open, path).parent is None,
    decreases fuel,
{
    if expected_node(s, tab, open, path).parent is Some {
        lemma_parent_is_shallower(tab, open, path, s);
        let p = expected_node(s, tab, open, path).parent->0;
        lemma_ancestors_end(tab, open, path, p, (fuel - 1) as nat);
    }
}

/// The focus path that leads to `surface`: from the root of the interaction tree down
/// through the surface's ancestors to the surface itself. Every surface has a node, so there
/// always is one.
pub fn focus_path_for_surface(
    active_tab: WorkspaceTab,
    open: OpenModals,
    interaction: &InteractionState,
    surface: SurfaceId,
) -> (r: Option<Vec<SurfaceId>>)
    ensures
        r matches Some(v) && v@ == ancestors(
            active_tab,
            open,
            interaction@.focus_path,
            surface,
            20,
        ).reverse(),
        r matches Some(v) && v@.len() >= 1 && v@.last() == surface && expected_node(
            v@[0],
            active_tab,
            open,
            interaction@.focus_path,
        ).parent is None,
{
    let ghost path = interaction@.focus_path;
    let tree = build_interaction_tree(active_tab, open, interaction);
    proof {
        lemma_lookup_built(tree.spec_nodes(), active_tab, open, path, surface);
    }
    if tree.node(surface).is_none() {
        return None;
    }
    let mut chain: Vec<SurfaceId> = vec![surface];
    let mut current = surface;
    let ghost mut fuel: nat = 20;
    loop
        invariant
            tree_holds(tree.spec_nodes(), active_tab, open, path),
            chain@.len() >= 1,
            chain@.last() == current,
            fuel >= surface_depth(open, path, current),
            chain@.drop_last() + ancestors(active_tab, open, path, current, fuel) == ancestors(
                active_tab,
                open,
                path,
                surface,
                20,
            ),
        ensures
            chain@ == ancestors(active_tab, open, path, surface, 20),
        decreases surface_depth(open, path, current),
    {
        proof {
            lemma_lookup_built(tree.spec_nodes(), active_tab, open, path, current);
        }
        match tree.parent_of(current) {
            Some(parent) => {
                proof {
                    lemma_parent_is_shallower(active_tab, open, path, current);
                    let before = chain@;
                    assert(ancestors(active_tab, open, path, current, fuel) == seq![current]
                        + ancestors(active_tab, open, path, parent, (fuel - 1) as nat));
                    assert(before.push(parent).drop_last() =~= before);
                    assert(before.drop_last() + seq![current] =~= before);
                    assert(before.drop_last() + (seq![current] + ancestors(
                        active_tab,
                        open,
                        path,
                        parent,
                        (fuel - 1) as nat,
                    )) =~= before + ancestors(active_tab, open, path, parent, (fuel - 1) as nat));
                    fuel = (fuel - 1) as nat;
                }
                chain.push(parent);
                current = parent;
            },
            None => {
                proof {
                    assert(ancestors(active_tab, open, path, current, fuel) == seq![current]);
                    assert(chain@.drop_last() + seq![current] =~= chain@);
                }
                break;
            },
        }
    }
    proof {
        lemma_ancestors_end(active_tab, open, path, surface, 20);
    }
    let mut out: Vec<SurfaceId> = Vec::new();
    let mut i: usize = chain.len();
    while i > 0
        invariant
            i <= chain.len(),
            out@ == chain@.skip(i as int).reverse(),
        decreases i,
    {
        i = i - 1;
        out.push(chain[i]);
        assert(chain@.skip(i as int) =~= seq![chain@[i as int]] + chain@.skip(i + 1));
        assert(out@ =~= chain@.skip(i as int).reverse());
    }
    assert(chain@.skip(0) =~= chain@);
    Some(out)
}

/// A modal that hangs under `n` is listed among the modal children of `n`.
proof fn lemma_modal_listed(open: OpenModals, path: Seq<SurfaceId>, m: SurfaceId, n: SurfaceId)
    requires
        m == SurfaceId::NumericEditorSurface || m == SurfaceId::SourcePicker || m
            == SurfaceId::ConfigDialog || m == SurfaceId::CommandPalette || m
            == SurfaceId::ShortcutHelp,
        modal_parent(open, path, m) == Some(n),
    ensures
        modal_children(open, path, n).contains(m),
{
    let a = modal_if_under(open, path, SurfaceId::NumericEditorSurface, n);
    let b = modal_if_under(open, path, SurfaceId::SourcePicker, n);
    let c = modal_if_under(open, path, SurfaceId::ConfigDialog, n);
    let d = modal_if_under(open, path, SurfaceId::CommandPalette, n);
    let e = modal_if_under(open, path, SurfaceId::ShortcutHelp, n);
    let all = modal_children(open, path, n);
    assert(all == a + b + c + d + e);
    let k: int = if m == SurfaceId::NumericEditorSurface {
        0
    } else if m == SurfaceId::SourcePicker {
        a.len() as int
    } else if m == SurfaceId::ConfigDialog {
        (a.len() + b.len()) as int
    } else if m == SurfaceId::CommandPalette {
        (a.len() + b.len() + c.len()) as int
    } else {
        (a.len() + b.len() + c.len() + d.len()) as int
    };
    assert(all[k] == m);
}

/// In the tree's description, a surface that names `n` as its parent is listed among the
/// children of `n`.
#[verifier::rlimit(60)]
proof fn lemma_parent_lists_child(
    tab: WorkspaceTab,
    open: OpenModals,
    path: Seq<SurfaceId>,
    c: SurfaceId,
    n: SurfaceId,
)
    requires
        expected_node(c, tab, open, path).parent == Some(n),
    ensures
        expected_node(n, tab, open, path).children.contains(c),
{
    let ch = expected_node(n, tab, open, path).children;
    let mc = modal_children(open, path, n);
    let pre_len: int = ch.len() - mc.len();
    if c == SurfaceId::NumericEditorSurface || c == SurfaceId::SourcePicker || c
        == SurfaceId::ConfigDialog || c == SurfaceId::CommandPalette || c
        == SurfaceId::ShortcutHelp {
        lemma_modal_listed(open, path, c, n);
        let j = choose|j: int| 0 <= j < mc.len() && mc[j] == c;
        assert(ch[pre_len + j] == c);
    } else if c == SurfaceId::MainWindow {
        assert(ch[0] == c);
    } else if c == SurfaceId::PreviewTabs {
        assert(ch[0] == c);
    } else if c == SurfaceId::PreviewBody {
        assert(ch[1] == c);
    } else if c != SurfaceId::AppRoot {
        let p = surface_panel_of(c);
        assert(panel_surface(p) == c);
        assert(tab_panels(tab).contains(p));
        let j = choose|j: int| 0 <= j < tab_panels(tab).len() && tab_panels(tab)[j] == p;
        assert(ch[j] == c);
    }
}

/// In a built tree, a surface that names a parent is listed among the children of that
/// parent; with [`law_tree_child_links_are_reciprocal`], a child of a node is exactly a
/// surface that names the node as its parent.
pub proof fn law_tree_parent_links_are_listed(
    tree: InteractionTree,
    tab: WorkspaceTab,
    open: OpenModals,
    path: Seq<SurfaceId>,
    c: SurfaceId,
    n: SurfaceId,
)
    requires
        tree_holds(tree.spec_nodes(), tab, open, path),
        lookup_parent(tree.spec_nodes(), c) == Some(n),
    ensures
        lookup(tree.spec_nodes(), n) is Some,
        lookup(tree.spec_nodes(), n)->0.children@.contains(c),
{
    let nodes = tree.spec_nodes();
    lemma_lookup_built(nodes, tab, open, path, c);
    lemma_lookup_built(nodes, tab, open, path, n);
    lemma_parent_lists_child(tab, open, path, c, n);
}

/// In a built tree, the surface of a panel is visible exactly when the active tab shows the
/// panel.
pub proof fn law_tree_panel_visibility_follows_active_tab(
    tree: InteractionTree,
    tab: WorkspaceTab,
    open: OpenModals,
    path: Seq<SurfaceId>,
    p: PanelId,
)
    requires
        tree_holds(tree.spec_nodes(), tab, open, path),
    ensures
        visible_within(tree.spec_nodes(), panel_surface(p), tree.spec_nodes().len()) == Some(
            tab_panels(tab).contains(p),
        ),
{
    let nodes = tree.spec_nodes();
    let f = nodes.len();
    lemma_lookup_built(nodes, tab, open, path, panel_surface(p));
    lemma_lookup_built(nodes, tab, open, path, SurfaceId::MainWindow);
    lemma_lookup_built(nodes, tab, open, path, SurfaceId::AppRoot);
    assert(surface_panel_of(panel_surface(p)) == p);
    assert(visible_within(nodes, SurfaceId::AppRoot, (f - 2) as nat) == Some(true));
    assert(visible_within(nodes, SurfaceId::MainWindow, (f - 1) as nat) == Some(true));
}

/// Parent links that descend along some ranking of the surfaces (so that they form no
/// cycle), with every surface that has a node ranked below the number of nodes, let the
/// visibility of every surface be decided within that many links; `is_visible` may then be
/// asked about any surface.
pub proof fn law_acyclic_tree_visibility_is_decided(
    nodes: Seq<SurfaceNode>,
    rank: spec_fn(SurfaceId) -> nat,
    s: SurfaceId,
)
    requires
        forall|x: SurfaceId| #[trigger] lookup(nodes, x) is Some ==> rank(x) < nodes.len(),
        forall|x: SurfaceId| #[trigger]
            lookup_parent(nodes, x) is Some ==> rank(lookup_parent(nodes, x)->0) < rank(x),
    ensures
        visible_within(nodes, s, nodes.len()) is Some,
{
    if lookup(nodes, s) is Some {
        lemma_ranked_visibility(nodes, rank, s, nodes.len());
    }
}

proof fn lemma_ranked_visibility(
    nodes: Seq<SurfaceNode>,
    rank: spec_fn(SurfaceId) -> nat,
    s: SurfaceId,
    fuel: nat,
)
    requires
        forall|x: SurfaceId| #[trigger]
            lookup_parent(nodes, x) is Some ==> rank(lookup_parent(nodes, x)->0) < rank(x),
        fuel >= rank(s),
    ensures
        visible_within(nodes, s, fuel) is Some,
    decreases fuel,
{
    match lookup(nodes, s) {
        None => {},
        Some(n) => {
            if n.visible {
                match n.parent {
                    None => {},
                    Some(p) => {
                        assert(lookup_parent(nodes, s) == Some(p));
                        lemma_ranked_visibility(nodes, rank, p, (fuel - 1) as nat);
                    },
                }
            }
        },
    }
}

} // verus!
