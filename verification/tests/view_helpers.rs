use themeprism::interaction::state::{InteractionMode, InteractionState};
use themeprism::interaction::surface::SurfaceId;
use themeprism::interaction::tree::{build_interaction_tree, OpenModals};
use themeprism::update::cycle_index;
use themeprism::view::{body_height, capability_badges, format_mode, input_preview};
use themeprism::workspace::WorkspaceTab;

#[test]
fn input_preview_appends_a_cursor() {
    assert_eq!(input_preview(""), "_");
    assert_eq!(input_preview("42"), "42_");
}

#[test]
fn body_height_adds_frame_rows_and_respects_the_minimum() {
    assert_eq!(body_height(3, 2, 5), 9);
    assert_eq!(body_height(1, 0, 12), 12);
    assert_eq!(body_height(0, 0, 0), 4);
}

#[test]
fn modes_print_with_their_owner() {
    assert_eq!(format_mode(InteractionMode::Normal), "Normal");
    assert_eq!(
        format_mode(InteractionMode::Capture {
            owner: SurfaceId::PreviewBody
        }),
        "Capture(PreviewBody)"
    );
    assert_eq!(
        format_mode(InteractionMode::NavigateChildren(SurfaceId::PreviewPanel)),
        "NavigateChildren(PreviewPanel)"
    );
    assert_eq!(
        format_mode(InteractionMode::Modal {
            owner: SurfaceId::ConfigDialog
        }),
        "Modal(ConfigDialog)"
    );
}

#[test]
fn capability_badges_describe_a_node() {
    let open = OpenModals {
        text_input: false,
        source_picker: false,
        config: false,
        command_palette: false,
        shortcut_help: false,
    };
    let tree = build_interaction_tree(
        WorkspaceTab::Theme,
        open,
        &InteractionState::new(SurfaceId::TokensPanel),
    );
    assert_eq!(
        capability_badges(tree.node(SurfaceId::PreviewPanel).unwrap()),
        vec!["focus", "tabs:Theme", "default:activate", "children:seq", "bubble:up"]
    );
    assert_eq!(
        capability_badges(tree.node(SurfaceId::AppRoot).unwrap()),
        vec!["tabs:global", "bubble:stop"]
    );
    assert_eq!(
        capability_badges(tree.node(SurfaceId::ShortcutHelp).unwrap()),
        vec!["focus", "tabs:modal", "default:open", "bubble:stop"]
    );
}

#[test]
fn cycle_index_wraps_both_ways() {
    assert_eq!(cycle_index(0, 5, -1), 4);
    assert_eq!(cycle_index(4, 5, 1), 0);
    assert_eq!(cycle_index(2, 5, 3), 0);
    assert_eq!(cycle_index(1, 3, -7), 0);
    assert_eq!(cycle_index(cycle_index(3, 7, 4), 7, -4), 3);
}
