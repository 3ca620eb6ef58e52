use vstd::prelude::*;

use crate::interaction::state::InteractionMode;
use crate::interaction::surface::SurfaceId;
use crate::interaction::tree::{BubblePolicy, ChildNavigation, DefaultAction, SurfaceNode, TabScope};
use crate::text::{owned, push_str};
use crate::workspace::WorkspaceTab;

verus! {

broadcast use vstd::string::group_string_axioms;

/// What an input field shows while it is edited: its text followed by a cursor mark.
pub open spec fn preview_text(buffer: Seq<char>) -> Seq<char> {
    buffer + "_"@
}

/// The text of an input field being edited, with `_` standing for the cursor.
pub fn input_preview(buffer: &str) -> (r: String)
    ensures
        r@ == preview_text(buffer@),
{
    proof {
        reveal_strlit("_");
    }
    let mut out = owned(buffer);
    push_str(&mut out, "_");
    out
}

/// The height of an overlay: its lines plus four rows of frame and padding, and at least
/// `min_height`. Line counts are taken modulo 2^16, as a `u16` holds them.
pub fn body_height(body_lines: usize, footer_lines: usize, min_height: u16) -> (r: u16)
    requires
        (body_lines as u16) + (footer_lines as u16) + 4 <= u16::MAX,
    ensures
        r == (if (body_lines as u16) + (footer_lines as u16) + 4 >= min_height {
            (body_lines as u16) + (footer_lines as u16) + 4
        } else {
            min_height as int
        }),
{
    let h = body_lines as u16 + footer_lines as u16 + 4;
    if h >= min_height {
        h
    } else {
        min_height
    }
}

/// The name of a surface as the interaction inspector prints it.
pub open spec fn surface_name(s: SurfaceId) -> Seq<char> {
    match s {
        SurfaceId::AppRoot => "AppRoot"@,
        SurfaceId::MainWindow => "MainWindow"@,
        SurfaceId::TokensPanel => "TokensPanel"@,
        SurfaceId::ParamsPanel => "ParamsPanel"@,
        SurfaceId::PreviewPanel => "PreviewPanel"@,
        SurfaceId::PreviewTabs => "PreviewTabs"@,
        SurfaceId::PreviewBody => "PreviewBody"@,
        SurfaceId::PalettePanel => "PalettePanel"@,
        SurfaceId::ResolvedPrimaryPanel => "ResolvedPrimaryPanel"@,
        SurfaceId::ResolvedSecondaryPanel => "ResolvedSecondaryPanel"@,
        SurfaceId::InspectorPanel => "InspectorPanel"@,
        SurfaceId::InteractionInspectorPanel => "InteractionInspectorPanel"@,
        SurfaceId::ProjectConfigPanel => "ProjectConfigPanel"@,
        SurfaceId::ExportTargetsPanel => "ExportTargetsPanel"@,
        SurfaceId::EditorPreferencesPanel => "EditorPreferencesPanel"@,
        SurfaceId::NumericEditorSurface => "NumericEditorSurface"@,
        SurfaceId::SourcePicker => "SourcePicker"@,
        SurfaceId::ConfigDialog => "ConfigDialog"@,
        SurfaceId::CommandPalette => "CommandPalette"@,
        SurfaceId::ShortcutHelp => "ShortcutHelp"@,
    }
}

/// The name of a surface.
pub fn surface_name_of(s: SurfaceId) -> (r: &'static str)
    ensures
        r@ == surface_name(s),
{
    match s {
        SurfaceId::AppRoot => "AppRoot",
        SurfaceId::MainWindow => "MainWindow",
        SurfaceId::TokensPanel => "TokensPanel",
        SurfaceId::ParamsPanel => "ParamsPanel",
        SurfaceId::PreviewPanel => "PreviewPanel",
        SurfaceId::PreviewTabs => "PreviewTabs",
        SurfaceId::PreviewBody => "PreviewBody",
        SurfaceId::PalettePanel => "PalettePanel",
        SurfaceId::ResolvedPrimaryPanel => "ResolvedPrimaryPanel",
        SurfaceId::ResolvedSecondaryPanel => "ResolvedSecondaryPanel",
        SurfaceId::InspectorPanel => "InspectorPanel",
        SurfaceId::InteractionInspectorPanel => "InteractionInspectorPanel",
        SurfaceId::ProjectConfigPanel => "ProjectConfigPanel",
        SurfaceId::ExportTargetsPanel => "ExportTargetsPanel",
        SurfaceId::EditorPreferencesPanel => "EditorPreferencesPanel",
        SurfaceId::NumericEditorSurface => "NumericEditorSurface",
        SurfaceId::SourcePicker => "SourcePicker",
        SurfaceId::ConfigDialog => "ConfigDialog",
        SurfaceId::CommandPalette => "CommandPalette",
        SurfaceId::ShortcutHelp => "ShortcutHelp",
    }
}

/// How the interaction inspector prints a mode: its name and, for modes that belong to a
/// surface, the surface in brackets.
pub open spec fn mode_text(mode: InteractionMode) -> Seq<char> {
    match mode {
        InteractionMode::Normal => "Normal"@,
        InteractionMode::NavigateChildren(owner) => "NavigateChildren"@ + "("@ + surface_name(owner) + ")"@,
        InteractionMode::NavigateScope(owner) => "NavigateScope"@ + "("@ + surface_name(owner) + ")"@,
        InteractionMode::Capture { owner } => "Capture"@ + "("@ + surface_name(owner) + ")"@,
        InteractionMode::Modal { owner } => "Modal"@ + "("@ + surface_name(owner) + ")"@,
    }
}

fn wrapped(name: &str, owner: SurfaceId) -> (r: String)
    ensures
        r@ == name@ + "("@ + surface_name(owner) + ")"@,
{
    let mut out = owned(name);
    push_str(&mut out, "(");
    push_str(&mut out, surface_name_of(owner));
    push_str(&mut out, ")");
    out
}

/// The text of a mode in the interaction inspector.
pub fn format_mode(mode: InteractionMode) -> (r: String)
    ensures
        r@ == mode_text(mode),
{
    match mode {
        InteractionMode::Normal => owned("Normal"),
        InteractionMode::NavigateChildren(owner) => wrapped("NavigateChildren", owner),
        InteractionMode::NavigateScope(owner) => wrapped("NavigateScope", owner),
        InteractionMode::Capture { owner } => wrapped("Capture", owner),
        InteractionMode::Modal { owner } => wrapped("Modal", owner),
    }
}

/// The badge for a surface's tab scope.
pub open spec fn tab_badge(scope: TabScope) -> Seq<char> {
    match scope {
        TabScope::Global => "tabs:global"@,
        TabScope::Workspace(WorkspaceTab::Theme) => "tabs:Theme"@,
        TabScope::Workspace(WorkspaceTab::Project) => "tabs:Project"@,
        TabScope::PreviewLocal => "tabs:preview"@,
        TabScope::Modal => "tabs:modal"@,
    }
}

/// The badge for a default action, if it has one.
pub open spec fn action_badge(action: DefaultAction) -> Seq<Seq<char>> {
    match action {
        DefaultAction::Nothing => Seq::empty(),
        DefaultAction::Activate => seq!["default:activate"@],
        DefaultAction::Open => seq!["default:open"@],
        DefaultAction::Edit => seq!["default:edit"@],
    }
}

/// The badge for a way of navigating children, if it has one.
pub open spec fn children_badge(nav: ChildNavigation) -> Seq<Seq<char>> {
    match nav {
        ChildNavigation::Off => Seq::empty(),
        ChildNavigation::Numbered => seq!["children:1-9"@],
        ChildNavigation::Sequential => seq!["children:seq"@],
    }
}

/// The badge for a bubbling policy.
pub open spec fn bubble_badge(policy: BubblePolicy) -> Seq<char> {
    match policy {
        BubblePolicy::Bubble => "bubble:up"@,
        BubblePolicy::Stop => "bubble:stop"@,
    }
}

/// The capability badges of a node, in display order.
pub open spec fn badges(node: SurfaceNode) -> Seq<Seq<char>> {
    (if node.focusable {
        seq!["focus"@]
    } else {
        Seq::empty()
    }) + seq![tab_badge(node.tab_scope)] + action_badge(node.default_action) + children_badge(
        node.child_navigation,
    ) + seq![bubble_badge(node.bubble_policy)]
}

/// The views of some strings.
pub open spec fn string_views(v: Seq<String>) -> Seq<Seq<char>> {
    v.map_values(|s: String| s@)
}

/// The capability badges that the interaction inspector shows for a node.
pub fn capability_badges(node: &SurfaceNode) -> (r: Vec<String>)
    ensures
        string_views(r@) == badges(*node),
{
    let mut out: Vec<String> = Vec::new();
    let ghost mut expect: Seq<Seq<char>> = Seq::empty();
    if node.focusable {
        out.push(owned("focus"));
        proof {
            expect = expect.push("focus"@);
        }
    }
    let tab = match node.tab_scope {
        TabScope::Global => owned("tabs:global"),
        TabScope::Workspace(WorkspaceTab::Theme) => owned("tabs:Theme"),
        TabScope::Workspace(WorkspaceTab::Project) => owned("tabs:Project"),
        TabScope::PreviewLocal => owned("tabs:preview"),
        TabScope::Modal => owned("tabs:modal"),
    };
    out.push(tab);
    proof {
        expect = expect.push(tab_badge(node.tab_scope));
    }
    match node.default_action {
        DefaultAction::Nothing => {},
        DefaultAction::Activate => {
            out.push(owned("default:activate"));
            proof {
                expect = expect.push("default:activate"@);
            }
        },
        DefaultAction::Open => {
            out.push(owned("default:open"));
            proof {
                expect = expect.push("default:open"@);
            }
        },
        DefaultAction::Edit => {
            out.push(owned("default:edit"));
            proof {
                expect = expect.push("default:edit"@);
            }
        },
    }
    match node.child_navigation {
        ChildNavigation::Off => {},
        ChildNavigation::Numbered => {
            out.push(owned("children:1-9"));
            proof {
                expect = expect.push("children:1-9"@);
            }
        },
        ChildNavigation::Sequential => {
            out.push(owned("children:seq"));
            proof {
                expect = expect.push("children:seq"@);
            }
        },
    }
    let bubble = match node.bubble_policy {
        BubblePolicy::Bubble => owned("bubble:up"),
        BubblePolicy::Stop => owned("bubble:stop"),
    };
    out.push(bubble);
    proof {
        expect = expect.push(bubble_badge(node.bubble_policy));
        assert(string_views(out@) =~= expect);
        assert(expect =~= badges(*node));
    }
    out
}

} // verus!
