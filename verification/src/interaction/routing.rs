use vstd::prelude::*;

use crate::interaction::state::{model_focus, model_mode, InteractionMode, InteractionState};
use crate::interaction::surface::{surface_panel, SurfaceId};
use crate::interaction::tree::{
    build_interaction_tree, law_built_tree_tab_owners_end, lemma_lookup_built, lookup,
    lookup_parent, node_model, resolve_child_navigation_owner, tree_holds, NodeModel, BubblePolicy, ChildNavigation, DefaultAction,
    InteractionTree, OpenModals, SurfaceNode, TabScope,
};
use crate::workspace::WorkspaceTab;
use crate::interaction::{effective_focus_path, effective_path};

verus! {

/// A key press, already translated into what the user asked for.
#[derive(Debug, Clone, Copy, PartialEq, Eq, Structural)]
pub enum UiAction {
    OpenNavigation,
    NavigateTo(char),
    PreviousTab,
    NextTab,
    MoveUp,
    MoveDown,
    MoveLeft,
    MoveRight,
    Activate,
    Toggle,
    Apply,
    Cancel,
    Backspace,
    Clear,
    OpenConfig,
    OpenHelp,
    ToggleFullscreenRequested,
    SaveProject,
    LoadProject,
    ExportTheme,
    Reset,
    Quit,
    SelectChild(u8),
    TypeChar(char),
}

/// What the editor is asked to do: routing produces most of these, the menus and the
/// command palette the rest. `ActivateControl` and `AdjustControlByStep` act on
/// the control that is active when the intent is carried out.
#[derive(Debug, Clone, Copy, PartialEq, Eq, Structural)]
pub enum Intent {
    CycleWorkspaceTab(i32),
    CyclePreviewMode(i32),
    FocusSurface(SurfaceId),
    SetInteractionMode(InteractionMode),
    FocusPanelByNumber(u8),
    ActivateControl,
    ActivateConfigField,
    SetPreviewCapture(bool),
    OpenConfigRequested,
    ToggleShortcutHelpRequested,
    SaveProjectRequested,
    LoadProjectRequested,
    ExportThemeRequested,
    ResetRequested,
    QuitRequested,
    MoveSelection(i32),
    AdjustControlByStep(i32),
    CommitTextInput,
    CancelTextInput,
    BackspaceTextInput,
    ClearTextInput,
    AdjustActiveNumericInputByStep(i32),
    AppendTextInput(char),
    ApplySourcePickerSelection,
    CloseSourcePicker,
    MoveSourcePickerSelection(i32),
    BackspaceSourcePickerFilter,
    ClearSourcePickerFilter,
    AppendSourcePickerFilter(char),
    CloseConfigRequested,
    MoveConfigSelection(i32),
    ScrollShortcutHelp(i32),
    SetWorkspaceTab(WorkspaceTab),
    SelectToken(usize),
    OpenCommandPaletteRequested,
    CloseCommandPaletteRequested,
    AppendCommandPaletteQuery(char),
    BackspaceCommandPaletteQuery,
    ClearCommandPaletteQuery,
    MoveCommandPaletteSelection(i32),
}

/// What routing needs to know of the editor besides the interaction tree: whether a
/// control is active, whether a configuration field is selected, and whether the open text
/// input edits a number.
#[derive(Debug, Clone, Copy, PartialEq, Eq, Structural)]
pub struct RoutingContext {
    pub active_control: bool,
    pub active_config_field: bool,
    pub numeric_input: bool,
}

/// The first position at or after `from` where `x` occurs in `s`.
pub open spec fn position_from(s: Seq<SurfaceId>, x: SurfaceId, from: int) -> Option<int>
    decreases s.len() - from,
{
    if from < 0 || from >= s.len() {
        None
    } else if s[from] == x {
        Some(from)
    } else {
        position_from(s, x, from + 1)
    }
}

/// The surfaces that input travels along: the effective focus path, cut to start at the
/// owner of an open modal (or that owner alone when the path does not hold it).
pub open spec fn routing_path(interaction: InteractionState) -> Seq<SurfaceId> {
    let path = effective_path(interaction);
    match model_mode(interaction@) {
        InteractionMode::Modal { owner } => match position_from(path, owner, 0) {
            Some(i) => path.skip(i),
            None => seq![owner],
        },
        _ => path,
    }
}

/// The first answer of `a` and `b`.
pub open spec fn first_of(a: Option<Seq<Intent>>, b: Option<Seq<Intent>>) -> Option<Seq<Intent>> {
    if a is Some {
        a
    } else {
        b
    }
}

/// What the node that owns tab keys does with them.
pub open spec fn tab_answer(node: SurfaceNode, delta: i32) -> Option<Seq<Intent>> {
    match node.tab_scope {
        TabScope::Global => if node.id == SurfaceId::MainWindow {
            Some(seq![Intent::CycleWorkspaceTab(delta)])
        } else {
            None
        },
        TabScope::PreviewLocal => Some(seq![Intent::CyclePreviewMode(delta)]),
        _ => None,
    }
}

/// Tab keys on `node` go to the end of its chain of tab-scope owners. The outer `None` says
/// that the chain did not end within `fuel` steps.
pub open spec fn tab_route(nodes: Seq<SurfaceNode>, node: SurfaceNode, delta: i32, fuel: nat) -> Option<
    Option<Seq<Intent>>,
>
    decreases fuel,
{
    match node.tab_scope_owner {
        None => Some(tab_answer(node, delta)),
        Some(owner) => match lookup(nodes, owner) {
            None => Some(None),
            Some(next) => if fuel == 0 {
                None
            } else {
                tab_route(nodes, next, delta, (fuel - 1) as nat)
            },
        },
    }
}

/// Entering child navigation on `node`: a numbered surface takes focus itself, a sequential
/// one hands it to its first child.
pub open spec fn enter_children(node: SurfaceNode) -> Option<Seq<Intent>> {
    match node.child_navigation {
        ChildNavigation::Off => None,
        ChildNavigation::Numbered => Some(
            seq![
                Intent::FocusSurface(node.id),
                Intent::SetInteractionMode(InteractionMode::NavigateChildren(node.id)),
            ],
        ),
        ChildNavigation::Sequential => if node.children@.len() > 0 {
            Some(
                seq![
                    Intent::FocusSurface(node.children@[0]),
                    Intent::SetInteractionMode(InteractionMode::NavigateChildren(node.id)),
                ],
            )
        } else {
            None
        },
    }
}

/// Activating or editing a surface: enter its children, else act on the active control,
/// else on the selected configuration field.
pub open spec fn activate_answer(ctx: RoutingContext, node: SurfaceNode) -> Option<Seq<Intent>> {
    match enter_children(node) {
        Some(s) => Some(s),
        None => if ctx.active_control {
            Some(seq![Intent::ActivateControl])
        } else if ctx.active_config_field {
            Some(seq![Intent::ActivateConfigField])
        } else {
            None
        },
    }
}

/// What a surface's default action does when it is activated.
pub open spec fn default_answer(ctx: RoutingContext, node: SurfaceNode) -> Option<Seq<Intent>> {
    match node.default_action {
        DefaultAction::Nothing => None,
        DefaultAction::Activate | DefaultAction::Edit => activate_answer(ctx, node),
        DefaultAction::Open => if node.id == SurfaceId::PreviewBody {
            Some(seq![Intent::SetPreviewCapture(true)])
        } else {
            None
        },
    }
}

/// The node that navigates among the children around `node` in mode `mode`, if any.
pub open spec fn navigation_owner(nodes: Seq<SurfaceNode>, mode: InteractionMode, node: SurfaceNode) -> Option<
    SurfaceNode,
> {
    match mode {
        InteractionMode::NavigateChildren(owner) => if node.id == owner || lookup_parent(nodes, node.id)
            == Some(owner) {
            lookup(nodes, owner)
        } else {
            None
        },
        _ => None,
    }
}

/// Cancelling child navigation gives focus back to the navigating surface.
pub open spec fn cancel_answer(nodes: Seq<SurfaceNode>, mode: InteractionMode, node: SurfaceNode) -> Option<
    Seq<Intent>,
> {
    match navigation_owner(nodes, mode, node) {
        Some(o) => if o.child_navigation != ChildNavigation::Off {
            Some(seq![Intent::FocusSurface(o.id), Intent::SetInteractionMode(InteractionMode::Normal)])
        } else {
            None
        },
        None => None,
    }
}

/// Moving between the children of a sequential surface: one step back or forward from the
/// focused child, stopping at the first and the last (no intent when nothing moves).
pub open spec fn move_answer(
    nodes: Seq<SurfaceNode>,
    mode: InteractionMode,
    focused: SurfaceId,
    node: SurfaceNode,
    forward: bool,
) -> Option<Seq<Intent>> {
    match navigation_owner(nodes, mode, node) {
        Some(o) => if o.child_navigation == ChildNavigation::Sequential {
            let children = o.children@;
            match position_from(children, focused, 0) {
                Some(index) => {
                    let next = if !forward {
                        if index == 0 {
                            0
                        } else {
                            index - 1
                        }
                    } else if index + 1 < children.len() {
                        index + 1
                    } else {
                        children.len() - 1
                    };
                    if next == index {
                        Some(Seq::empty())
                    } else {
                        Some(seq![Intent::FocusSurface(children[next])])
                    }
                },
                None => None,
            }
        } else {
            None
        },
        None => None,
    }
}

/// Choosing a numbered child of the main window while it navigates its children.
pub open spec fn select_child_answer(mode: InteractionMode, node: SurfaceNode, number: u8) -> Option<
    Seq<Intent>,
> {
    if mode == InteractionMode::NavigateChildren(node.id) && node.child_navigation
        == ChildNavigation::Numbered && node.id == SurfaceId::MainWindow {
        Some(seq![Intent::FocusPanelByNumber(number), Intent::SetInteractionMode(InteractionMode::Normal)])
    } else {
        None
    }
}

/// The main window's own shortcuts.
pub open spec fn main_window_answer(action: UiAction) -> Option<Seq<Intent>> {
    match action {
        UiAction::Cancel => Some(
            seq![
                Intent::FocusSurface(SurfaceId::MainWindow),
                Intent::SetInteractionMode(InteractionMode::Normal),
            ],
        ),
        UiAction::OpenConfig => Some(seq![Intent::OpenConfigRequested]),
        UiAction::OpenHelp => Some(seq![Intent::ToggleShortcutHelpRequested]),
        UiAction::SaveProject => Some(seq![Intent::SaveProjectRequested]),
        UiAction::LoadProject => Some(seq![Intent::LoadProjectRequested]),
        UiAction::ExportTheme => Some(seq![Intent::ExportThemeRequested]),
        UiAction::Reset => Some(seq![Intent::ResetRequested]),
        UiAction::Quit => Some(seq![Intent::QuitRequested]),
        _ => None,
    }
}

/// What a workspace panel does with a key.
pub open spec fn panel_answer(ctx: RoutingContext, action: UiAction) -> Option<Seq<Intent>> {
    match action {
        UiAction::Cancel => Some(
            seq![
                Intent::FocusSurface(SurfaceId::MainWindow),
                Intent::SetInteractionMode(InteractionMode::Normal),
            ],
        ),
        UiAction::MoveUp => Some(seq![Intent::MoveSelection(-1i32)]),
        UiAction::MoveDown => Some(seq![Intent::MoveSelection(1i32)]),
        UiAction::MoveLeft => if ctx.active_control {
            Some(seq![Intent::AdjustControlByStep(-1i32)])
        } else {
            None
        },
        UiAction::MoveRight => if ctx.active_control {
            Some(seq![Intent::AdjustControlByStep(1i32)])
        } else {
            None
        },
        UiAction::Activate | UiAction::Toggle => if ctx.active_config_field {
            Some(seq![Intent::ActivateConfigField])
        } else {
            None
        },
        _ => None,
    }
}

/// What the text input does with a key.
pub open spec fn text_input_answer(ctx: RoutingContext, action: UiAction) -> Option<Seq<Intent>> {
    match action {
        UiAction::Apply => Some(seq![Intent::CommitTextInput]),
        UiAction::Cancel => Some(seq![Intent::CancelTextInput]),
        UiAction::Backspace => Some(seq![Intent::BackspaceTextInput]),
        UiAction::Clear => Some(seq![Intent::ClearTextInput]),
        UiAction::MoveLeft => if ctx.numeric_input {
            Some(seq![Intent::AdjustActiveNumericInputByStep(-1i32)])
        } else {
            None
        },
        UiAction::MoveRight => if ctx.numeric_input {
            Some(seq![Intent::AdjustActiveNumericInputByStep(1i32)])
        } else {
            None
        },
        UiAction::TypeChar(c) => Some(seq![Intent::AppendTextInput(c)]),
        _ => None,
    }
}

/// What the source picker does with a key.
pub open spec fn source_picker_answer(action: UiAction) -> Option<Seq<Intent>> {
    match action {
        UiAction::Apply => Some(seq![Intent::ApplySourcePickerSelection]),
        UiAction::Cancel => Some(seq![Intent::CloseSourcePicker]),
        UiAction::MoveUp => Some(seq![Intent::MoveSourcePickerSelection(-1i32)]),
        UiAction::MoveDown => Some(seq![Intent::MoveSourcePickerSelection(1i32)]),
        UiAction::Backspace => Some(seq![Intent::BackspaceSourcePickerFilter]),
        UiAction::Clear => Some(seq![Intent::ClearSourcePickerFilter]),
        UiAction::TypeChar(c) => Some(seq![Intent::AppendSourcePickerFilter(c)]),
        _ => None,
    }
}

/// What the configuration dialog does with a key.
pub open spec fn config_dialog_answer(action: UiAction) -> Option<Seq<Intent>> {
    match action {
        UiAction::OpenHelp => Some(seq![Intent::ToggleShortcutHelpRequested]),
        UiAction::Cancel => Some(seq![Intent::CloseConfigRequested]),
        UiAction::Activate | UiAction::Toggle => Some(seq![Intent::ActivateConfigField]),
        UiAction::MoveUp => Some(seq![Intent::MoveConfigSelection(-1i32)]),
        UiAction::MoveDown => Some(seq![Intent::MoveConfigSelection(1i32)]),
        _ => None,
    }
}

/// What the shortcut help does with a key.
pub open spec fn shortcut_help_answer(action: UiAction) -> Option<Seq<Intent>> {
    match action {
        UiAction::OpenHelp | UiAction::Cancel => Some(seq![Intent::ToggleShortcutHelpRequested]),
        UiAction::MoveUp => Some(seq![Intent::ScrollShortcutHelp(-1i32)]),
        UiAction::MoveDown => Some(seq![Intent::ScrollShortcutHelp(1i32)]),
        _ => None,
    }
}

/// What a surface does with a key by its kind.
pub open spec fn surface_answer(ctx: RoutingContext, surface: SurfaceId, action: UiAction) -> Option<
    Seq<Intent>,
> {
    if surface_panel(surface) is Some {
        panel_answer(ctx, action)
    } else {
        match surface {
            SurfaceId::MainWindow => main_window_answer(action),
            SurfaceId::NumericEditorSurface => text_input_answer(ctx, action),
            SurfaceId::SourcePicker => source_picker_answer(action),
            SurfaceId::ConfigDialog => config_dialog_answer(action),
            SurfaceId::ShortcutHelp => shortcut_help_answer(action),
            _ => None,
        }
    }
}

/// What `node` does with a key. The outer `None` says that its tab-scope owners loop.
pub open spec fn node_answer(
    nodes: Seq<SurfaceNode>,
    mode: InteractionMode,
    focused: SurfaceId,
    ctx: RoutingContext,
    node: SurfaceNode,
    action: UiAction,
) -> Option<Option<Seq<Intent>>> {
    match action {
        UiAction::PreviousTab => tab_route(nodes, node, -1i32, nodes.len()),
        UiAction::NextTab => tab_route(nodes, node, 1i32, nodes.len()),
        UiAction::Activate => Some(
            first_of(default_answer(ctx, node), surface_answer(ctx, node.id, action)),
        ),
        UiAction::Cancel => Some(
            first_of(cancel_answer(nodes, mode, node), surface_answer(ctx, node.id, action)),
        ),
        UiAction::MoveUp | UiAction::MoveLeft => Some(
            first_of(
                move_answer(nodes, mode, focused, node, false),
                surface_answer(ctx, node.id, action),
            ),
        ),
        UiAction::MoveDown | UiAction::MoveRight => Some(
            first_of(
                move_answer(nodes, mode, focused, node, true),
                surface_answer(ctx, node.id, action),
            ),
        ),
        UiAction::SelectChild(number) => Some(select_child_answer(mode, node, number)),
        _ => Some(surface_answer(ctx, node.id, action)),
    }
}

/// Routes a key along `path` from its end toward its start: surfaces without a node are
/// passed over, the first node that answers decides, and a node that stops bubbling ends
/// the search with no intent. The outer `None` says that a tab-scope chain loops.
pub open spec fn route_along(
    nodes: Seq<SurfaceNode>,
    mode: InteractionMode,
    focused: SurfaceId,
    ctx: RoutingContext,
    path: Seq<SurfaceId>,
    action: UiAction,
) -> Option<Seq<Intent>>
    decreases path.len(),
{
    if path.len() == 0 {
        Some(Seq::empty())
    } else {
        match lookup(nodes, path.last()) {
            None => route_along(nodes, mode, focused, ctx, path.drop_last(), action),
            Some(node) => match node_answer(nodes, mode, focused, ctx, node, action) {
                None => None,
                Some(Some(intents)) => Some(intents),
                Some(None) => if node.bubble_policy == BubblePolicy::Stop {
                    Some(Seq::empty())
                } else {
                    route_along(nodes, mode, focused, ctx, path.drop_last(), action)
                },
            },
        }
    }
}

/// The intents that a key gives in the tree `nodes` with the interaction state
/// `interaction`.
pub open spec fn route_outcome(
    nodes: Seq<SurfaceNode>,
    interaction: InteractionState,
    ctx: RoutingContext,
    action: UiAction,
) -> Option<Seq<Intent>> {
    route_along(
        nodes,
        model_mode(interaction@),
        model_focus(interaction@),
        ctx,
        routing_path(interaction),
        action,
    )
}

/// The view of an optional list of intents.
pub open spec fn answer_view(a: Option<Vec<Intent>>) -> Option<Seq<Intent>> {
    match a {
        Some(v) => Some(v@),
        None => None,
    }
}

/// The first position of `x` in `s`.
fn find_position(s: &Vec<SurfaceId>, x: SurfaceId) -> (r: Option<usize>)
    ensures
        match r {
            Some(i) => position_from(s@, x, 0) == Some(i as int) && i < s.len(),
            None => position_from(s@, x, 0) is None,
        },
{
    let mut i: usize = 0;
    while i < s.len()
        invariant
            i <= s.len(),
            position_from(s@, x, 0) == position_from(s@, x, i as int),
        decreases s.len() - i,
    {
        if s[i] == x {
            return Some(i);
        }
        i = i + 1;
    }
    None
}

/// The surfaces that input travels along (see [`routing_path`]).
pub fn active_routing_path(interaction: &InteractionState) -> (r: Vec<SurfaceId>)
    ensures
        r@ == routing_path(*interaction),
{
    let path = effective_focus_path(interaction);
    match interaction.current_mode() {
        InteractionMode::Modal { owner } => match find_position(&path, owner) {
            Some(start) => {
                let mut rest: Vec<SurfaceId> = Vec::new();
                let mut i = start;
                while i < path.len()
                    invariant
                        start <= i <= path.len(),
                        rest@ == path@.subrange(start as int, i as int),
                    decreases path.len() - i,
                {
                    rest.push(path[i]);
                    proof {
                        assert(path@.subrange(start as int, i + 1) =~= path@.subrange(
                            start as int,
                            i as int,
                        ).push(path@[i as int]));
                    }
                    i = i + 1;
                }
                proof {
                    assert(path@.subrange(start as int, path@.len() as int) =~= path@.skip(
                        start as int,
                    ));
                }
                rest
            },
            None => vec![owner],
        },
        _ => path,
    }
}

/// Tab keys on `node` (see [`tab_route`]).
fn route_tab(tree: &InteractionTree, node: &SurfaceNode, delta: i32) -> (r: Option<Vec<Intent>>)
    requires
        tab_route(tree.spec_nodes(), *node, delta, tree.spec_nodes().len()) is Some,
    ensures
        Some(answer_view(r)) == tab_route(tree.spec_nodes(), *node, delta, tree.spec_nodes().len()),
{
    let ghost nodes = tree.spec_nodes();
    let ghost mut fuel: nat = nodes.len();
    let mut current: &SurfaceNode = node;
    loop
        invariant
            nodes == tree.spec_nodes(),
            tab_route(nodes, *current, delta, fuel) is Some,
            tab_route(nodes, *current, delta, fuel) == tab_route(nodes, *node, delta, nodes.len()),
        decreases fuel,
    {
        match current.tab_scope_owner {
            None => {
                return match current.tab_scope {
                    TabScope::Global => if current.id == SurfaceId::MainWindow {
                        Some(vec![Intent::CycleWorkspaceTab(delta)])
                    } else {
                        None
                    },
                    TabScope::PreviewLocal => Some(vec![Intent::CyclePreviewMode(delta)]),
                    _ => None,
                };
            },
            Some(owner) => match tree.node(owner) {
                None => {
                    return None;
                },
                Some(next) => {
                    current = next;
                    proof {
                        fuel = (fuel - 1) as nat;
                    }
                },
            },
        }
    }
}

/// Entering child navigation (see [`enter_children`]).
fn route_enter_children(node: &SurfaceNode) -> (r: Option<Vec<Intent>>)
    ensures
        answer_view(r) == enter_children(*node),
{
    match node.child_navigation {
        ChildNavigation::Off => None,
        ChildNavigation::Numbered => Some(
            vec![
                Intent::FocusSurface(node.id),
                Intent::SetInteractionMode(InteractionMode::NavigateChildren(node.id)),
            ],
        ),
        ChildNavigation::Sequential => if node.children.len() > 0 {
            Some(
                vec![
                    Intent::FocusSurface(node.children[0]),
                    Intent::SetInteractionMode(InteractionMode::NavigateChildren(node.id)),
                ],
            )
        } else {
            None
        },
    }
}

/// A surface's default action (see [`default_answer`]).
fn route_default(ctx: RoutingContext, node: &SurfaceNode) -> (r: Option<Vec<Intent>>)
    ensures
        answer_view(r) == default_answer(ctx, *node),
{
    match node.default_action {
        DefaultAction::Nothing => None,
        DefaultAction::Activate | DefaultAction::Edit => {
            let entered = route_enter_children(node);
            if entered.is_some() {
                entered
            } else if ctx.active_control {
                Some(vec![Intent::ActivateControl])
            } else if ctx.active_config_field {
                Some(vec![Intent::ActivateConfigField])
            } else {
                None
            }
        },
        DefaultAction::Open => if node.id == SurfaceId::PreviewBody {
            Some(vec![Intent::SetPreviewCapture(true)])
        } else {
            None
        },
    }
}

/// Cancelling child navigation (see [`cancel_answer`]).
fn route_cancel(tree: &InteractionTree, mode: InteractionMode, node: &SurfaceNode) -> (r: Option<
    Vec<Intent>,
>)
    ensures
        answer_view(r) == cancel_answer(tree.spec_nodes(), mode, *node),
{
    let owner = match mode {
        InteractionMode::NavigateChildren(owner) => owner,
        _ => {
            return None;
        },
    };
    match resolve_child_navigation_owner(tree, node, owner) {
        Some(o) => if o.child_navigation != ChildNavigation::Off {
            Some(vec![Intent::FocusSurface(o.id), Intent::SetInteractionMode(InteractionMode::Normal)])
        } else {
            None
        },
        None => None,
    }
}

/// Moving between children (see [`move_answer`]).
fn route_move(
    tree: &InteractionTree,
    mode: InteractionMode,
    focused: SurfaceId,
    node: &SurfaceNode,
    forward: bool,
) -> (r: Option<Vec<Intent>>)
    ensures
        answer_view(r) == move_answer(tree.spec_nodes(), mode, focused, *node, forward),
{
    let owner = match mode {
        InteractionMode::NavigateChildren(owner) => owner,
        _ => {
            return None;
        },
    };
    let o = match resolve_child_navigation_owner(tree, node, owner) {
        Some(o) => o,
        None => {
            return None;
        },
    };
    if o.child_navigation != ChildNavigation::Sequential {
        return None;
    }
    let index = match find_position(&o.children, focused) {
        Some(i) => i,
        None => {
            return None;
        },
    };
    let next = if !forward {
        if index == 0 {
            0
        } else {
            index - 1
        }
    } else if index + 1 < o.children.len() {
        index + 1
    } else {
        o.children.len() - 1
    };
    if next == index {
        Some(Vec::new())
    } else {
        Some(vec![Intent::FocusSurface(o.children[next])])
    }
}

/// What a surface does with a key by its kind (see [`surface_answer`]).
fn route_surface(ctx: RoutingContext, surface: SurfaceId, action: UiAction) -> (r: Option<
    Vec<Intent>,
>)
    ensures
        answer_view(r) == surface_answer(ctx, surface, action),
{
    if surface.panel_id().is_some() {
        return match action {
            UiAction::Cancel => Some(
                vec![
                    Intent::FocusSurface(SurfaceId::MainWindow),
                    Intent::SetInteractionMode(InteractionMode::Normal),
                ],
            ),
            UiAction::MoveUp => Some(vec![Intent::MoveSelection(-1i32)]),
            UiAction::MoveDown => Some(vec![Intent::MoveSelection(1i32)]),
            UiAction::MoveLeft => if ctx.active_control {
                Some(vec![Intent::AdjustControlByStep(-1i32)])
            } else {
                None
            },
            UiAction::MoveRight => if ctx.active_control {
                Some(vec![Intent::AdjustControlByStep(1i32)])
            } else {
                None
            },
            UiAction::Activate | UiAction::Toggle => if ctx.active_config_field {
                Some(vec![Intent::ActivateConfigField])
            } else {
                None
            },
            _ => None,
        };
    }
    match surface {
        SurfaceId::MainWindow => match action {
            UiAction::Cancel => Some(
                vec![
                    Intent::FocusSurface(SurfaceId::MainWindow),
                    Intent::SetInteractionMode(InteractionMode::Normal),
                ],
            ),
            UiAction::OpenConfig => Some(vec![Intent::OpenConfigRequested]),
            UiAction::OpenHelp => Some(vec![Intent::ToggleShortcutHelpRequested]),
            UiAction::SaveProject => Some(vec![Intent::SaveProjectRequested]),
            UiAction::LoadProject => Some(vec![Intent::LoadProjectRequested]),
            UiAction::ExportTheme => Some(vec![Intent::ExportThemeRequested]),
            UiAction::Reset => Some(vec![Intent::ResetRequested]),
            UiAction::Quit => Some(vec![Intent::QuitRequested]),
            _ => None,
        },
        SurfaceId::NumericEditorSurface => match action {
            UiAction::Apply => Some(vec![Intent::CommitTextInput]),
            UiAction::Cancel => Some(vec![Intent::CancelTextInput]),
            UiAction::Backspace => Some(vec![Intent::BackspaceTextInput]),
            UiAction::Clear => Some(vec![Intent::ClearTextInput]),
            UiAction::MoveLeft => if ctx.numeric_input {
                Some(vec![Intent::AdjustActiveNumericInputByStep(-1i32)])
            } else {
                None
            },
            UiAction::MoveRight => if ctx.numeric_input {
                Some(vec![Intent::AdjustActiveNumericInputByStep(1i32)])
            } else {
                None
            },
            UiAction::TypeChar(c) => Some(vec![Intent::AppendTextInput(c)]),
            _ => None,
        },
        SurfaceId::SourcePicker => match action {
            UiAction::Apply => Some(vec![Intent::ApplySourcePickerSelection]),
            UiAction::Cancel => Some(vec![Intent::CloseSourcePicker]),
            UiAction::MoveUp => Some(vec![Intent::MoveSourcePickerSelection(-1i32)]),
            UiAction::MoveDown => Some(vec![Intent::MoveSourcePickerSelection(1i32)]),
            UiAction::Backspace => Some(vec![Intent::BackspaceSourcePickerFilter]),
            UiAction::Clear => Some(vec![Intent::ClearSourcePickerFilter]),
            UiAction::TypeChar(c) => Some(vec![Intent::AppendSourcePickerFilter(c)]),
            _ => None,
        },
        SurfaceId::ConfigDialog => match action {
            UiAction::OpenHelp => Some(vec![Intent::ToggleShortcutHelpRequested]),
            UiAction::Cancel => Some(vec![Intent::CloseConfigRequested]),
            UiAction::Activate | UiAction::Toggle => Some(vec![Intent::ActivateConfigField]),
            UiAction::MoveUp => Some(vec![Intent::MoveConfigSelection(-1i32)]),
            UiAction::MoveDown => Some(vec![Intent::MoveConfigSelection(1i32)]),
            _ => None,
        },
        SurfaceId::ShortcutHelp => match action {
            UiAction::OpenHelp | UiAction::Cancel => Some(vec![Intent::ToggleShortcutHelpRequested]),
            UiAction::MoveUp => Some(vec![Intent::ScrollShortcutHelp(-1i32)]),
            UiAction::MoveDown => Some(vec![Intent::ScrollShortcutHelp(1i32)]),
            _ => None,
        },
        _ => None,
    }
}

/// What `node` does with a key (see [`node_answer`]).
fn route_node(
    tree: &InteractionTree,
    mode: InteractionMode,
    focused: SurfaceId,
    ctx: RoutingContext,
    node: &SurfaceNode,
    action: UiAction,
) -> (r: Option<Vec<Intent>>)
    requires
        node_answer(tree.spec_nodes(), mode, focused, ctx, *node, action) is Some,
    ensures
        Some(answer_view(r)) == node_answer(tree.spec_nodes(), mode, focused, ctx, *node, action),
{
    match action {
        UiAction::PreviousTab => route_tab(tree, node, -1i32),
        UiAction::NextTab => route_tab(tree, node, 1i32),
        UiAction::Activate => {
            let first = route_default(ctx, node);
            if first.is_some() {
                first
            } else {
                route_surface(ctx, node.id, action)
            }
        },
        UiAction::Cancel => {
            let first = route_cancel(tree, mode, node);
            if first.is_some() {
                first
            } else {
                route_surface(ctx, node.id, action)
            }
        },
        UiAction::MoveUp | UiAction::MoveLeft => {
            let first = route_move(tree, mode, focused, node, false);
            if first.is_some() {
                first
            } else {
                route_surface(ctx, node.id, action)
            }
        },
        UiAction::MoveDown | UiAction::MoveRight => {
            let first = route_move(tree, mode, focused, node, true);
            if first.is_some() {
                first
            } else {
                route_surface(ctx, node.id, action)
            }
        },
        UiAction::SelectChild(number) => {
            if mode == InteractionMode::NavigateChildren(node.id) && node.child_navigation
                == ChildNavigation::Numbered && node.id == SurfaceId::MainWindow {
                Some(
                    vec![
                        Intent::FocusPanelByNumber(number),
                        Intent::SetInteractionMode(InteractionMode::Normal),
                    ],
                )
            } else {
                None
            }
        },
        _ => route_surface(ctx, node.id, action),
    }
}

/// The intents that `action` gives in `tree`: the key travels from the end of the routing
/// path toward its start until a surface answers or one stops it.
///
/// The chain of tab-scope owners that a tab key follows must end; a chain that loops would
/// never be decided.
pub fn route_in_tree(
    tree: &InteractionTree,
    interaction: &InteractionState,
    ctx: RoutingContext,
    action: UiAction,
) -> (r: Vec<Intent>)
    requires
        route_outcome(tree.spec_nodes(), *interaction, ctx, action) is Some,
    ensures
        Some(r@) == route_outcome(tree.spec_nodes(), *interaction, ctx, action),
{
    let ghost nodes = tree.spec_nodes();
    let path = active_routing_path(interaction);
    let mode = interaction.current_mode();
    let focused = interaction.focused_surface();
    let mut end = path.len();
    proof {
        assert(path@.take(end as int) =~= path@);
    }
    loop
        invariant
            nodes == tree.spec_nodes(),
            end <= path.len(),
            mode == model_mode(interaction@),
            focused == model_focus(interaction@),
            route_along(nodes, mode, focused, ctx, path@.take(end as int), action) is Some,
            route_along(nodes, mode, focused, ctx, path@.take(end as int), action) == route_outcome(
                nodes,
                *interaction,
                ctx,
                action,
            ),
        decreases end,
    {
        if end == 0 {
            return Vec::new();
        }
        let ghost before = path@.take(end as int);
        proof {
            assert(before.last() == path@[end - 1]);
            assert(before.drop_last() =~= path@.take(end - 1));
        }
        let surface = path[end - 1];
        match tree.node(surface) {
            None => {
                end = end - 1;
            },
            Some(node) => {
                match route_node(tree, mode, focused, ctx, node, action) {
                    Some(intents) => {
                        return intents;
                    },
                    None => {
                        if node.bubble_policy == BubblePolicy::Stop {
                            return Vec::new();
                        }
                        end = end - 1;
                    },
                }
            },
        }
    }
}

/// Whether every tab-scope owner in `nodes` has a node that handles tab keys itself.
pub open spec fn tab_owners_end(nodes: Seq<SurfaceNode>) -> bool {
    forall|s: SurfaceId|
        #[trigger] lookup(nodes, s) matches Some(n) ==> (n.tab_scope_owner matches Some(o) ==> (
        lookup(nodes, o) matches Some(m) && m.tab_scope_owner is None))
}

/// Where every tab-scope owner handles tab keys itself, routing is decided for every path.
pub proof fn law_routing_is_decided(
    nodes: Seq<SurfaceNode>,
    mode: InteractionMode,
    focused: SurfaceId,
    ctx: RoutingContext,
    path: Seq<SurfaceId>,
    action: UiAction,
)
    requires
        tab_owners_end(nodes),
    ensures
        route_along(nodes, mode, focused, ctx, path, action) is Some,
    decreases path.len(),
{
    if path.len() > 0 {
        law_routing_is_decided(nodes, mode, focused, ctx, path.drop_last(), action);
        if let Some(node) = lookup(nodes, path.last()) {
            if let Some(o) = node.tab_scope_owner {
                let m = lookup(nodes, o)->0;
                assert(tab_route(nodes, m, 1i32, (nodes.len() - 1) as nat) is Some);
                assert(tab_route(nodes, m, -1i32, (nodes.len() - 1) as nat) is Some);
            }
        }
    }
}

/// The intents that `action` gives with the interaction tree that `active_tab`, `open` and
/// `interaction` build (see [`route_in_tree`]): every tree that those inputs build routes
/// the key to the same intents.
pub fn route_ui_action(
    active_tab: WorkspaceTab,
    open: OpenModals,
    interaction: &InteractionState,
    ctx: RoutingContext,
    action: UiAction,
) -> (r: Vec<Intent>)
    ensures
        exists|nodes: Seq<SurfaceNode>| tree_holds(nodes, active_tab, open, interaction@.focus_path),
        forall|nodes: Seq<SurfaceNode>|
            tree_holds(nodes, active_tab, open, interaction@.focus_path) ==> Some(r@) == route_outcome(
                nodes,
                *interaction,
                ctx,
                action,
            ),
{
    let tree = build_interaction_tree(active_tab, open, interaction);
    let ghost built = tree.spec_nodes();
    proof {
        assert forall|s: SurfaceId|
            #[trigger] lookup(built, s) matches Some(n) ==> (n.tab_scope_owner matches Some(o) ==> (
            lookup(built, o) matches Some(m) && m.tab_scope_owner is None)) by {
            law_built_tree_tab_owners_end(built, active_tab, open, interaction@.focus_path, s);
        }
        law_routing_is_decided(
            built,
            model_mode(interaction@),
            model_focus(interaction@),
            ctx,
            routing_path(*interaction),
            action,
        );
    }
    let r = route_in_tree(&tree, interaction, ctx, action);
    proof {
        assert forall|nodes: Seq<SurfaceNode>|
            tree_holds(nodes, active_tab, open, interaction@.focus_path) implies Some(r@)
            == route_outcome(nodes, *interaction, ctx, action) by {
            lemma_built_trees_agree(built, nodes, active_tab, open, interaction@.focus_path);
            law_routing_depends_on_node_models(
                built,
                nodes,
                model_mode(interaction@),
                model_focus(interaction@),
                ctx,
                routing_path(*interaction),
                action,
            );
        }
    }
    r
}

/// A position that `position_from` finds holds `x`.
proof fn lemma_position_from(s: Seq<SurfaceId>, x: SurfaceId, from: int)
    requires
        0 <= from,
    ensures
        position_from(s, x, from) matches Some(i) ==> from <= i < s.len() && s[i] == x,
    decreases s.len() - from,
{
    if 0 <= from < s.len() && s[from] != x {
        lemma_position_from(s, x, from + 1);
    }
}

/// While a modal is open, input starts at the modal's owner: the routing path begins with
/// the owner, so surfaces above it on the focus path never see the key.
pub proof fn law_modal_owner_starts_routing(interaction: InteractionState, owner: SurfaceId)
    requires
        model_mode(interaction@) == (InteractionMode::Modal { owner }),
    ensures
        routing_path(interaction).len() > 0,
        routing_path(interaction)[0] == owner,
{
    lemma_position_from(effective_path(interaction), owner, 0);
}

/// The model of an optional node.
pub open spec fn model_of(n: Option<SurfaceNode>) -> Option<NodeModel> {
    match n {
        Some(n) => Some(node_model(n)),
        None => None,
    }
}

/// Whether looking up any surface in `n1` and in `n2` finds nodes with the same model.
pub open spec fn lookups_agree(n1: Seq<SurfaceNode>, n2: Seq<SurfaceNode>) -> bool {
    &&& n1.len() == n2.len()
    &&& forall|s: SurfaceId|
        #![trigger lookup(n1, s)]
        #![trigger lookup(n2, s)]
        model_of(lookup(n1, s)) == model_of(lookup(n2, s))
}

proof fn lemma_tab_route_alike(
    n1: Seq<SurfaceNode>,
    n2: Seq<SurfaceNode>,
    a: SurfaceNode,
    b: SurfaceNode,
    delta: i32,
    fuel: nat,
)
    requires
        lookups_agree(n1, n2),
        node_model(a) == node_model(b),
    ensures
        tab_route(n1, a, delta, fuel) == tab_route(n2, b, delta, fuel),
    decreases fuel,
{
    if let Some(o) = a.tab_scope_owner {
        assert(model_of(lookup(n1, o)) == model_of(lookup(n2, o)));
        if fuel > 0 {
            if let Some(x) = lookup(n1, o) {
                lemma_tab_route_alike(n1, n2, x, lookup(n2, o)->0, delta, (fuel - 1) as nat);
            }
        }
    }
}

proof fn lemma_node_answer_alike(
    n1: Seq<SurfaceNode>,
    n2: Seq<SurfaceNode>,
    mode: InteractionMode,
    focused: SurfaceId,
    ctx: RoutingContext,
    a: SurfaceNode,
    b: SurfaceNode,
    action: UiAction,
)
    requires
        lookups_agree(n1, n2),
        node_model(a) == node_model(b),
    ensures
        node_answer(n1, mode, focused, ctx, a, action) == node_answer(n2, mode, focused, ctx, b, action),
{
    lemma_tab_route_alike(n1, n2, a, b, 1i32, n1.len());
    lemma_tab_route_alike(n1, n2, a, b, -1i32, n1.len());
    assert(model_of(lookup(n1, a.id)) == model_of(lookup(n2, b.id)));
    if let InteractionMode::NavigateChildren(owner) = mode {
        assert(model_of(lookup(n1, owner)) == model_of(lookup(n2, owner)));
    }
    assert(default_answer(ctx, a) == default_answer(ctx, b));
    assert(cancel_answer(n1, mode, a) == cancel_answer(n2, mode, b));
    assert(move_answer(n1, mode, focused, a, true) == move_answer(n2, mode, focused, b, true));
    assert(move_answer(n1, mode, focused, a, false) == move_answer(n2, mode, focused, b, false));
}

/// Trees whose lookups find nodes with the same models route every key alike.
pub proof fn law_routing_depends_on_node_models(
    n1: Seq<SurfaceNode>,
    n2: Seq<SurfaceNode>,
    mode: InteractionMode,
    focused: SurfaceId,
    ctx: RoutingContext,
    path: Seq<SurfaceId>,
    action: UiAction,
)
    requires
        lookups_agree(n1, n2),
    ensures
        route_along(n1, mode, focused, ctx, path, action) == route_along(
            n2,
            mode,
            focused,
            ctx,
            path,
            action,
        ),
    decreases path.len(),
{
    if path.len() > 0 {
        law_routing_depends_on_node_models(n1, n2, mode, focused, ctx, path.drop_last(), action);
        let s = path.last();
        assert(model_of(lookup(n1, s)) == model_of(lookup(n2, s)));
        if let Some(a) = lookup(n1, s) {
            lemma_node_answer_alike(n1, n2, mode, focused, ctx, a, lookup(n2, s)->0, action);
        }
    }
}

/// Two trees built from the same inputs find nodes with the same models.
proof fn lemma_built_trees_agree(
    n1: Seq<SurfaceNode>,
    n2: Seq<SurfaceNode>,
    tab: WorkspaceTab,
    open: OpenModals,
    path: Seq<SurfaceId>,
)
    requires
        tree_holds(n1, tab, open, path),
        tree_holds(n2, tab, open, path),
    ensures
        lookups_agree(n1, n2),
{
    assert forall|s: SurfaceId| model_of(lookup(n1, s)) == model_of(lookup(n2, s)) by {
        lemma_lookup_built(n1, tab, open, path, s);
        lemma_lookup_built(n2, tab, open, path, s);
    }
}

/// Whether `a` is a single intent to scroll the help by a step of sign `sign`.
pub open spec fn scrolls_help(a: Option<Seq<Intent>>, sign: int) -> bool {
    a matches Some(s) && s.len() == 1 && (s[0] matches Intent::ScrollShortcutHelp(d) && d * sign > 0)
}

/// Whether `a` is a single intent to move the source picker's highlight by a step of sign
/// `sign`.
pub open spec fn moves_picker(a: Option<Seq<Intent>>, sign: int) -> bool {
    a matches Some(s) && s.len() == 1 && (s[0] matches Intent::MoveSourcePickerSelection(d) && d * sign > 0)
}

/// Whether `a` is a single intent to move the configuration dialog's selection by a step of
/// sign `sign`.
pub open spec fn moves_config(a: Option<Seq<Intent>>, sign: int) -> bool {
    a matches Some(s) && s.len() == 1 && (s[0] matches Intent::MoveConfigSelection(d) && d * sign > 0)
}

/// Whether `a` is a single intent to move a panel's selection by a step of sign `sign`.
pub open spec fn moves_selection(a: Option<Seq<Intent>>, sign: int) -> bool {
    a matches Some(s) && s.len() == 1 && (s[0] matches Intent::MoveSelection(d) && d * sign > 0)
}

/// Up and Down go opposite ways, Down towards later rows and larger offsets: on the
/// shortcut help they scroll, on the source picker and the configuration dialog they move
/// the highlight, and on every workspace panel they move the selection.
pub proof fn law_up_and_down_go_opposite_ways(ctx: RoutingContext, surface: SurfaceId)
    ensures
        scrolls_help(surface_answer(ctx, SurfaceId::ShortcutHelp, UiAction::MoveUp), -1),
        scrolls_help(surface_answer(ctx, SurfaceId::ShortcutHelp, UiAction::MoveDown), 1),
        moves_picker(surface_answer(ctx, SurfaceId::SourcePicker, UiAction::MoveUp), -1),
        moves_picker(surface_answer(ctx, SurfaceId::SourcePicker, UiAction::MoveDown), 1),
        moves_config(surface_answer(ctx, SurfaceId::ConfigDialog, UiAction::MoveUp), -1),
        moves_config(surface_answer(ctx, SurfaceId::ConfigDialog, UiAction::MoveDown), 1),
        surface_panel(surface) is Some ==> moves_selection(surface_answer(ctx, surface, UiAction::MoveUp), -1),
        surface_panel(surface) is Some ==> moves_selection(surface_answer(ctx, surface, UiAction::MoveDown), 1),
{
}

} // verus!
