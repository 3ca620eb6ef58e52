use themeprism::interaction::routing::{
    active_routing_path, route_in_tree, route_ui_action, Intent, RoutingContext, UiAction,
};
use themeprism::interaction::state::{InteractionMode, InteractionState};
use themeprism::interaction::surface::SurfaceId;
use themeprism::interaction::tree::{build_interaction_tree, OpenModals};
use themeprism::workspace::WorkspaceTab;

fn no_modals() -> OpenModals {
    OpenModals {
        text_input: false,
        source_picker: false,
        config: false,
        command_palette: false,
        shortcut_help: false,
    }
}

fn context() -> RoutingContext {
    RoutingContext {
        active_control: true,
        active_config_field: false,
        numeric_input: false,
    }
}

fn focused(path: Vec<SurfaceId>) -> InteractionState {
    let mut interaction = InteractionState::new(SurfaceId::TokensPanel);
    interaction.focus_path = path;
    interaction
}

fn route(interaction: &InteractionState, action: UiAction) -> Vec<Intent> {
    route_ui_action(WorkspaceTab::Theme, no_modals(), interaction, context(), action)
}

fn preview_path(last: SurfaceId) -> Vec<SurfaceId> {
    vec![
        SurfaceId::AppRoot,
        SurfaceId::MainWindow,
        SurfaceId::PreviewPanel,
        last,
    ]
}

#[test]
fn switch_tab_bubbles_from_tokens_panel_to_main_window() {
    let interaction = focused(vec![
        SurfaceId::AppRoot,
        SurfaceId::MainWindow,
        SurfaceId::TokensPanel,
    ]);
    assert_eq!(route(&interaction, UiAction::NextTab), vec![Intent::CycleWorkspaceTab(1)]);
}

#[test]
fn switch_tab_bubbles_from_preview_panel_to_main_window_when_preview_tabs_are_not_focused() {
    let interaction = focused(vec![
        SurfaceId::AppRoot,
        SurfaceId::MainWindow,
        SurfaceId::PreviewPanel,
    ]);
    assert_eq!(route(&interaction, UiAction::NextTab), vec![Intent::CycleWorkspaceTab(1)]);
}

#[test]
fn switch_tab_is_handled_locally_by_preview_tabs() {
    let interaction = focused(preview_path(SurfaceId::PreviewTabs));
    assert_eq!(route(&interaction, UiAction::NextTab), vec![Intent::CyclePreviewMode(1)]);
}

#[test]
fn activate_on_preview_panel_enters_child_navigation_at_preview_tabs() {
    let interaction = focused(vec![
        SurfaceId::AppRoot,
        SurfaceId::MainWindow,
        SurfaceId::PreviewPanel,
    ]);
    assert_eq!(
        route(&interaction, UiAction::Activate),
        vec![
            Intent::FocusSurface(SurfaceId::PreviewTabs),
            Intent::SetInteractionMode(InteractionMode::NavigateChildren(SurfaceId::PreviewPanel)),
        ]
    );
}

#[test]
fn activate_on_preview_body_enters_capture_mode() {
    let interaction = focused(preview_path(SurfaceId::PreviewBody));
    assert_eq!(
        route(&interaction, UiAction::Activate),
        vec![Intent::SetPreviewCapture(true)]
    );
}

#[test]
fn switch_tab_on_preview_body_bubbles_to_preview_tabs_owner() {
    let interaction = focused(preview_path(SurfaceId::PreviewBody));
    assert_eq!(route(&interaction, UiAction::NextTab), vec![Intent::CyclePreviewMode(1)]);
}

fn navigating(last: SurfaceId) -> InteractionState {
    let mut interaction = focused(preview_path(last));
    interaction.set_mode(InteractionMode::NavigateChildren(SurfaceId::PreviewPanel));
    interaction
}

#[test]
fn move_right_advances_between_preview_children_while_navigation_is_active() {
    let interaction = navigating(SurfaceId::PreviewTabs);
    assert_eq!(
        route(&interaction, UiAction::MoveRight),
        vec![Intent::FocusSurface(SurfaceId::PreviewBody)]
    );
}

#[test]
fn move_down_advances_between_preview_children_while_navigation_is_active() {
    let interaction = navigating(SurfaceId::PreviewTabs);
    assert_eq!(
        route(&interaction, UiAction::MoveDown),
        vec![Intent::FocusSurface(SurfaceId::PreviewBody)]
    );
}

#[test]
fn move_up_rewinds_between_preview_children_while_navigation_is_active() {
    let interaction = navigating(SurfaceId::PreviewBody);
    assert_eq!(
        route(&interaction, UiAction::MoveUp),
        vec![Intent::FocusSurface(SurfaceId::PreviewTabs)]
    );
}

#[test]
fn move_up_on_first_preview_child_is_a_noop_during_navigation() {
    let interaction = navigating(SurfaceId::PreviewTabs);
    assert!(route(&interaction, UiAction::MoveUp).is_empty());
}

fn source_picker_open() -> (OpenModals, InteractionState) {
    let mut open = no_modals();
    open.source_picker = true;
    let mut interaction = focused(vec![
        SurfaceId::AppRoot,
        SurfaceId::MainWindow,
        SurfaceId::InspectorPanel,
        SurfaceId::SourcePicker,
    ]);
    interaction.push_mode(InteractionMode::Modal {
        owner: SurfaceId::SourcePicker,
    });
    (open, interaction)
}

#[test]
fn source_picker_routes_within_its_modal_subtree() {
    let (open, interaction) = source_picker_open();
    let tree = build_interaction_tree(WorkspaceTab::Theme, open, &interaction);
    let intents = route_ui_action(WorkspaceTab::Theme, open, &interaction, context(), UiAction::NextTab);

    assert_eq!(tree.parent_of(SurfaceId::SourcePicker), Some(SurfaceId::InspectorPanel));
    assert!(intents.is_empty());
}

#[test]
fn source_picker_blocks_main_window_shortcuts_while_modal_is_open() {
    let (open, interaction) = source_picker_open();
    let intents = route_ui_action(WorkspaceTab::Theme, open, &interaction, context(), UiAction::OpenConfig);
    assert!(intents.is_empty());
}

#[test]
fn source_picker_keys_reach_the_picker() {
    let (open, interaction) = source_picker_open();
    assert_eq!(
        route_ui_action(WorkspaceTab::Theme, open, &interaction, context(), UiAction::TypeChar('a')),
        vec![Intent::AppendSourcePickerFilter('a')]
    );
    assert_eq!(
        route_ui_action(WorkspaceTab::Theme, open, &interaction, context(), UiAction::MoveDown),
        vec![Intent::MoveSourcePickerSelection(1)]
    );
}

#[test]
fn modal_routing_path_starts_at_the_owner() {
    let (_, interaction) = source_picker_open();
    assert_eq!(active_routing_path(&interaction), vec![SurfaceId::SourcePicker]);

    let mut elsewhere = focused(vec![SurfaceId::AppRoot, SurfaceId::MainWindow]);
    elsewhere.push_mode(InteractionMode::Modal {
        owner: SurfaceId::ConfigDialog,
    });
    assert_eq!(active_routing_path(&elsewhere), vec![SurfaceId::ConfigDialog]);
}

#[test]
fn main_window_shortcuts_bubble_up_from_panels() {
    let interaction = focused(vec![
        SurfaceId::AppRoot,
        SurfaceId::MainWindow,
        SurfaceId::TokensPanel,
    ]);
    assert_eq!(route(&interaction, UiAction::SaveProject), vec![Intent::SaveProjectRequested]);
    assert_eq!(route(&interaction, UiAction::MoveDown), vec![Intent::MoveSelection(1)]);
    assert_eq!(route(&interaction, UiAction::MoveLeft), vec![Intent::AdjustControlByStep(-1)]);
    assert_eq!(
        route(&interaction, UiAction::Cancel),
        vec![
            Intent::FocusSurface(SurfaceId::MainWindow),
            Intent::SetInteractionMode(InteractionMode::Normal),
        ]
    );
    assert!(route(&interaction, UiAction::NavigateTo('x')).is_empty());
}

#[test]
fn route_in_tree_matches_the_built_tree_route() {
    let interaction = focused(preview_path(SurfaceId::PreviewBody));
    let tree = build_interaction_tree(WorkspaceTab::Theme, no_modals(), &interaction);
    assert_eq!(
        route_in_tree(&tree, &interaction, context(), UiAction::PreviousTab),
        vec![Intent::CyclePreviewMode(-1)]
    );
}
