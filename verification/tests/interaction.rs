use themeprism::interaction::state::{InteractionMode, InteractionState};
use themeprism::interaction::{effective_focus_path, effective_focus_surface, has_active_capture};
use themeprism::interaction::surface::SurfaceId;
use themeprism::interaction::tree::{
    build_interaction_tree, focus_path_for_surface, resolve_child_navigation_owner, BubblePolicy, ChildNavigation,
    DefaultAction, InteractionTree, OpenModals, SurfaceNode, TabScope,
};
use themeprism::workspace::{PanelId, WorkspaceTab};

#[test]
fn modal_mode_pushes_and_pops_without_losing_owner_focus() {
    let mut interaction = InteractionState::new(SurfaceId::TokensPanel);

    assert_eq!(interaction.current_mode(), InteractionMode::Normal);
    interaction.push_mode(InteractionMode::Capture {
        owner: SurfaceId::PreviewBody,
    });
    assert_eq!(
        interaction.current_mode(),
        InteractionMode::Capture {
            owner: SurfaceId::PreviewBody,
        }
    );
    interaction.push_mode(InteractionMode::Modal {
        owner: SurfaceId::NumericEditorSurface,
    });
    assert_eq!(
        interaction.current_mode(),
        InteractionMode::Modal {
            owner: SurfaceId::NumericEditorSurface,
        }
    );
    interaction.focus_path = vec![
        SurfaceId::MainWindow,
        SurfaceId::ParamsPanel,
        SurfaceId::NumericEditorSurface,
    ];

    interaction.pop_mode();

    assert_eq!(
        interaction.current_mode(),
        InteractionMode::Capture {
            owner: SurfaceId::PreviewBody,
        }
    );
    assert_eq!(interaction.focused_surface(), SurfaceId::ParamsPanel);

    interaction.pop_mode();

    assert_eq!(interaction.current_mode(), InteractionMode::Normal);
}

#[test]
fn capture_mode_can_stack_on_top_of_normal_mode() {
    let mut interaction = InteractionState::new(SurfaceId::PreviewBody);
    assert_eq!(interaction.current_mode(), InteractionMode::Normal);
    interaction.push_mode(InteractionMode::Capture {
        owner: SurfaceId::PreviewBody,
    });

    assert_eq!(
        interaction.current_mode(),
        InteractionMode::Capture {
            owner: SurfaceId::PreviewBody,
        }
    );
    assert!(interaction.has_mode_for(SurfaceId::PreviewBody));

    interaction.pop_mode();

    assert_eq!(interaction.current_mode(), InteractionMode::Normal);
}

#[test]
fn pop_mode_only_pops_focus_when_owner_matches_trailing_surface() {
    let mut interaction = InteractionState::new(SurfaceId::PreviewBody);
    interaction.focus_path = vec![
        SurfaceId::AppRoot,
        SurfaceId::MainWindow,
        SurfaceId::PreviewPanel,
        SurfaceId::PreviewBody,
    ];
    interaction.push_mode(InteractionMode::Capture {
        owner: SurfaceId::PreviewBody,
    });
    interaction.focus_path.push(SurfaceId::NumericEditorSurface);

    interaction.pop_mode();

    assert_eq!(interaction.current_mode(), InteractionMode::Normal);
    assert_eq!(
        interaction.focus_path,
        vec![
            SurfaceId::AppRoot,
            SurfaceId::MainWindow,
            SurfaceId::PreviewPanel,
            SurfaceId::PreviewBody,
            SurfaceId::NumericEditorSurface,
        ]
    );
}

#[test]
fn remove_mode_drops_a_capture_below_a_modal() {
    let mut interaction = InteractionState::new(SurfaceId::PreviewBody);
    interaction.push_mode(InteractionMode::Capture {
        owner: SurfaceId::PreviewBody,
    });
    interaction.push_mode(InteractionMode::Modal {
        owner: SurfaceId::ConfigDialog,
    });
    interaction.remove_mode(InteractionMode::Capture {
        owner: SurfaceId::PreviewBody,
    });
    assert_eq!(
        interaction.mode_stack(),
        &vec![InteractionMode::Modal {
            owner: SurfaceId::ConfigDialog
        }]
    );
    assert!(!interaction.has_mode_for(SurfaceId::PreviewBody));
    // The released owner was the trailing surface, so focus leaves it.
    assert_eq!(
        interaction.focus_path,
        vec![SurfaceId::AppRoot, SurfaceId::MainWindow]
    );
}

#[test]
fn set_mode_replaces_the_stack_and_focus_panel_resets_it() {
    let mut interaction = InteractionState::new(SurfaceId::TokensPanel);
    interaction.push_mode(InteractionMode::Modal {
        owner: SurfaceId::ShortcutHelp,
    });
    interaction.set_mode(InteractionMode::NavigateScope(SurfaceId::MainWindow));
    assert_eq!(
        interaction.current_mode(),
        InteractionMode::NavigateScope(SurfaceId::MainWindow)
    );
    assert_eq!(interaction.mode_stack().len(), 1);
    interaction.set_mode(InteractionMode::Normal);
    assert!(interaction.mode_stack().is_empty());

    interaction.push_mode(InteractionMode::Capture {
        owner: SurfaceId::PreviewBody,
    });
    interaction.focus_panel(PanelId::ExportTargets);
    assert_eq!(interaction.current_mode(), InteractionMode::Normal);
    assert_eq!(
        interaction.focused_workspace_surface(),
        SurfaceId::ExportTargetsPanel
    );
    interaction.focus_root();
    assert_eq!(
        interaction.focus_path,
        vec![SurfaceId::AppRoot, SurfaceId::MainWindow]
    );
    interaction.focus_path.clear();
    assert_eq!(interaction.focused_surface(), SurfaceId::MainWindow);
}

#[test]
fn surface_panel_mapping_round_trips() {
    assert_eq!(SurfaceId::PreviewBody.panel_id(), Some(PanelId::Preview));
    assert_eq!(SurfaceId::MainWindow.panel_id(), None);
    assert_eq!(
        SurfaceId::workspace_surface(PanelId::Palette),
        SurfaceId::PalettePanel
    );
    assert!(SurfaceId::PreviewTabs.is_workspace_panel());
    assert!(!SurfaceId::ConfigDialog.is_workspace_panel());
    assert!(SurfaceId::MainWindow.is_workspace_surface());
    assert!(!SurfaceId::AppRoot.is_workspace_surface());
}

fn node(id: SurfaceId, parent: Option<SurfaceId>, visible: bool) -> SurfaceNode {
    SurfaceNode::new(
        id,
        parent,
        Vec::new(),
        true,
        visible,
        None,
        TabScope::Workspace(WorkspaceTab::Theme),
        DefaultAction::Activate,
        ChildNavigation::Off,
        BubblePolicy::Bubble,
        None,
    )
}

#[test]
fn tree_lookup_parent_and_visibility() {
    let tree = InteractionTree::new(vec![
        node(SurfaceId::AppRoot, None, true),
        node(SurfaceId::MainWindow, Some(SurfaceId::AppRoot), true),
        node(SurfaceId::PreviewPanel, Some(SurfaceId::MainWindow), false),
        node(SurfaceId::PreviewBody, Some(SurfaceId::PreviewPanel), true),
        node(SurfaceId::TokensPanel, Some(SurfaceId::MainWindow), true),
    ]);
    assert_eq!(
        tree.parent_of(SurfaceId::PreviewBody),
        Some(SurfaceId::PreviewPanel)
    );
    assert_eq!(tree.parent_of(SurfaceId::ShortcutHelp), None);
    assert!(tree.is_visible(SurfaceId::TokensPanel));
    assert!(!tree.is_visible(SurfaceId::PreviewBody));
    assert!(!tree.is_visible(SurfaceId::ShortcutHelp));
    assert_eq!(
        tree.node(SurfaceId::MainWindow).map(|n| n.parent),
        Some(Some(SurfaceId::AppRoot))
    );

    let body = tree.node(SurfaceId::PreviewBody).unwrap().clone();
    let owner = resolve_child_navigation_owner(&tree, &body, SurfaceId::PreviewPanel);
    assert_eq!(owner.map(|n| n.id), Some(SurfaceId::PreviewPanel));
    let none = resolve_child_navigation_owner(&tree, &body, SurfaceId::TokensPanel);
    assert!(none.is_none());
}

fn nothing_open() -> OpenModals {
    OpenModals {
        text_input: false,
        source_picker: false,
        config: false,
        command_palette: false,
        shortcut_help: false,
    }
}

fn default_interaction() -> InteractionState {
    InteractionState::new(SurfaceId::TokensPanel)
}

#[test]
fn interaction_tree_contains_preview_tabs_under_preview_panel() {
    let tree = build_interaction_tree(WorkspaceTab::Theme, nothing_open(), &default_interaction());

    assert_eq!(
        tree.parent_of(SurfaceId::PreviewTabs),
        Some(SurfaceId::PreviewPanel)
    );
    assert_eq!(
        tree.parent_of(SurfaceId::PreviewBody),
        Some(SurfaceId::PreviewPanel)
    );
}

#[test]
fn interaction_tree_uses_visible_panels_for_active_workspace_tab() {
    let tree =
        build_interaction_tree(WorkspaceTab::Project, nothing_open(), &default_interaction());

    assert!(tree.is_visible(SurfaceId::ProjectConfigPanel));
    assert!(!tree.is_visible(SurfaceId::TokensPanel));
}

#[test]
fn interaction_tree_uses_visible_theme_tab_children() {
    let tree = build_interaction_tree(WorkspaceTab::Theme, nothing_open(), &default_interaction());

    assert_eq!(
        tree.node(SurfaceId::MainWindow)
            .expect("main window")
            .children,
        vec![
            SurfaceId::TokensPanel,
            SurfaceId::ParamsPanel,
            SurfaceId::PalettePanel,
            SurfaceId::ResolvedPrimaryPanel,
            SurfaceId::ResolvedSecondaryPanel,
            SurfaceId::PreviewPanel,
            SurfaceId::InspectorPanel,
            SurfaceId::InteractionInspectorPanel,
        ]
    );
}

#[test]
fn interaction_tree_uses_visible_project_tab_children() {
    let tree =
        build_interaction_tree(WorkspaceTab::Project, nothing_open(), &default_interaction());

    assert_eq!(
        tree.node(SurfaceId::MainWindow)
            .expect("main window")
            .children,
        vec![
            SurfaceId::ProjectConfigPanel,
            SurfaceId::ExportTargetsPanel,
            SurfaceId::EditorPreferencesPanel,
        ]
    );
}

#[test]
fn interaction_tree_child_links_are_reciprocal() {
    let tree = build_interaction_tree(WorkspaceTab::Theme, nothing_open(), &default_interaction());

    for node_id in [
        SurfaceId::AppRoot,
        SurfaceId::MainWindow,
        SurfaceId::TokensPanel,
        SurfaceId::ParamsPanel,
        SurfaceId::PreviewPanel,
        SurfaceId::PreviewTabs,
        SurfaceId::PreviewBody,
        SurfaceId::PalettePanel,
        SurfaceId::ResolvedPrimaryPanel,
        SurfaceId::ResolvedSecondaryPanel,
        SurfaceId::InspectorPanel,
        SurfaceId::InteractionInspectorPanel,
        SurfaceId::ProjectConfigPanel,
        SurfaceId::ExportTargetsPanel,
        SurfaceId::EditorPreferencesPanel,
        SurfaceId::NumericEditorSurface,
        SurfaceId::SourcePicker,
        SurfaceId::ConfigDialog,
        SurfaceId::ShortcutHelp,
    ] {
        let node = tree.node(node_id).expect("node exists");
        for &child in &node.children {
            assert_eq!(
                tree.parent_of(child),
                Some(node_id),
                "child {child:?} should point back to {node_id:?}"
            );
        }
    }
}

#[test]
fn hidden_workspace_panels_do_not_report_an_active_parent() {
    let tree =
        build_interaction_tree(WorkspaceTab::Project, nothing_open(), &default_interaction());

    assert_eq!(tree.parent_of(SurfaceId::TokensPanel), None);
    assert_eq!(tree.parent_of(SurfaceId::ParamsPanel), None);
    assert_eq!(tree.parent_of(SurfaceId::PalettePanel), None);
    assert_eq!(tree.parent_of(SurfaceId::ResolvedPrimaryPanel), None);
    assert_eq!(tree.parent_of(SurfaceId::ResolvedSecondaryPanel), None);
    assert_eq!(tree.parent_of(SurfaceId::InspectorPanel), None);
    assert_eq!(tree.parent_of(SurfaceId::InteractionInspectorPanel), None);
}

#[test]
fn interaction_tree_keeps_resolved_theme_panels_distinct() {
    assert_eq!(
        SurfaceId::workspace_surface(PanelId::ResolvedPrimary),
        SurfaceId::ResolvedPrimaryPanel
    );
    assert_eq!(
        SurfaceId::workspace_surface(PanelId::ResolvedSecondary),
        SurfaceId::ResolvedSecondaryPanel
    );
    assert_ne!(
        SurfaceId::ResolvedPrimaryPanel,
        SurfaceId::ResolvedSecondaryPanel
    );

    let tree = build_interaction_tree(WorkspaceTab::Theme, nothing_open(), &default_interaction());

    assert_eq!(
        tree.parent_of(SurfaceId::ResolvedPrimaryPanel),
        Some(SurfaceId::MainWindow)
    );
    assert_eq!(
        tree.parent_of(SurfaceId::ResolvedSecondaryPanel),
        Some(SurfaceId::MainWindow)
    );
    assert!(tree.is_visible(SurfaceId::ResolvedPrimaryPanel));
    assert!(tree.is_visible(SurfaceId::ResolvedSecondaryPanel));
}

#[test]
fn interaction_tree_tracks_modal_visibility() {
    let mut open = nothing_open();
    open.text_input = true;

    let tree = build_interaction_tree(WorkspaceTab::Theme, open, &default_interaction());
    assert!(tree.is_visible(SurfaceId::NumericEditorSurface));
    assert!(!tree.is_visible(SurfaceId::SourcePicker));

    let mut open = nothing_open();
    open.source_picker = true;

    let tree = build_interaction_tree(WorkspaceTab::Theme, open, &default_interaction());
    assert!(tree.is_visible(SurfaceId::SourcePicker));
    assert!(!tree.is_visible(SurfaceId::ConfigDialog));
}

#[test]
fn command_palette_is_visible_as_a_modal_surface_when_open() {
    let mut open = nothing_open();
    open.command_palette = true;
    let mut interaction = default_interaction();
    interaction.push_mode(InteractionMode::Modal {
        owner: SurfaceId::CommandPalette,
    });

    let tree = build_interaction_tree(WorkspaceTab::Theme, open, &interaction);

    assert!(tree.is_visible(SurfaceId::CommandPalette));
    assert_eq!(
        tree.parent_of(SurfaceId::CommandPalette),
        Some(SurfaceId::TokensPanel)
    );
}

#[test]
fn modal_on_the_focus_path_hangs_under_its_predecessor() {
    let mut open = nothing_open();
    open.source_picker = true;
    let mut interaction = default_interaction();
    interaction.focus_path = vec![
        SurfaceId::AppRoot,
        SurfaceId::MainWindow,
        SurfaceId::InspectorPanel,
        SurfaceId::SourcePicker,
    ];

    let tree = build_interaction_tree(WorkspaceTab::Theme, open, &interaction);

    assert_eq!(
        tree.parent_of(SurfaceId::SourcePicker),
        Some(SurfaceId::InspectorPanel)
    );
    assert_eq!(
        tree.node(SurfaceId::InspectorPanel).unwrap().children,
        vec![SurfaceId::SourcePicker]
    );
    assert_eq!(tree.parent_of(SurfaceId::ConfigDialog), None);
    let main = tree.node(SurfaceId::MainWindow).unwrap();
    assert_eq!(main.bubble_policy, BubblePolicy::Bubble);
    assert_eq!(main.tab_scope, TabScope::Global);
    let body = tree.node(SurfaceId::PreviewBody).unwrap();
    assert_eq!(body.tab_scope_owner, Some(SurfaceId::PreviewTabs));
    assert_eq!(body.default_action, DefaultAction::Open);
    assert_eq!(
        tree.node(SurfaceId::PreviewPanel).unwrap().child_navigation,
        ChildNavigation::Sequential
    );
}

#[test]
fn effective_focus_path_does_not_append_modal_owner() {
    let mut interaction = default_interaction();
    interaction.focus_panel(PanelId::Params);
    interaction.push_mode(InteractionMode::Modal {
        owner: SurfaceId::NumericEditorSurface,
    });

    assert_eq!(
        effective_focus_path(&interaction),
        vec![
            SurfaceId::AppRoot,
            SurfaceId::MainWindow,
            SurfaceId::ParamsPanel,
        ]
    );
}

#[test]
fn effective_focus_path_uses_stack_owner_instead_of_ui_flags() {
    let mut interaction = default_interaction();
    interaction.focus_panel(PanelId::Preview);

    assert_eq!(
        effective_focus_path(&interaction),
        vec![
            SurfaceId::AppRoot,
            SurfaceId::MainWindow,
            SurfaceId::PreviewPanel,
        ]
    );

    interaction.push_mode(InteractionMode::Capture {
        owner: SurfaceId::PreviewBody,
    });

    assert_eq!(
        effective_focus_path(&interaction),
        vec![
            SurfaceId::AppRoot,
            SurfaceId::MainWindow,
            SurfaceId::PreviewPanel,
            SurfaceId::PreviewBody,
        ]
    );
    assert_eq!(effective_focus_surface(&interaction), SurfaceId::PreviewBody);
    assert!(has_active_capture(&interaction, SurfaceId::PreviewBody));
    assert!(!has_active_capture(&interaction, SurfaceId::PreviewPanel));
}

#[test]
fn empty_focus_path_stands_for_the_main_window() {
    let mut interaction = default_interaction();
    interaction.focus_path.clear();
    assert_eq!(
        effective_focus_path(&interaction),
        vec![SurfaceId::AppRoot, SurfaceId::MainWindow]
    );
    assert_eq!(effective_focus_surface(&interaction), SurfaceId::MainWindow);
}

#[test]
fn focus_paths_lead_from_the_root_to_the_surface() {
    let interaction = default_interaction();
    assert_eq!(
        focus_path_for_surface(WorkspaceTab::Theme, nothing_open(), &interaction, SurfaceId::PreviewBody),
        Some(vec![
            SurfaceId::AppRoot,
            SurfaceId::MainWindow,
            SurfaceId::PreviewPanel,
            SurfaceId::PreviewBody,
        ])
    );
    assert_eq!(
        focus_path_for_surface(WorkspaceTab::Project, nothing_open(), &interaction, SurfaceId::TokensPanel),
        Some(vec![SurfaceId::TokensPanel])
    );

    let mut open = nothing_open();
    open.source_picker = true;
    let mut picking = default_interaction();
    picking.focus_path = vec![
        SurfaceId::AppRoot,
        SurfaceId::MainWindow,
        SurfaceId::InspectorPanel,
        SurfaceId::SourcePicker,
    ];
    assert_eq!(
        focus_path_for_surface(WorkspaceTab::Theme, open, &picking, SurfaceId::SourcePicker),
        Some(picking.focus_path.clone())
    );
}

#[test]
fn entering_the_innermost_mode_again_changes_nothing() {
    let mut interaction = InteractionState::new(SurfaceId::InspectorPanel);
    let modal = InteractionMode::Modal {
        owner: SurfaceId::SourcePicker,
    };
    interaction.push_mode_once(modal);
    interaction.push_mode_once(modal);
    assert_eq!(interaction.mode_stack(), &vec![modal]);
    interaction.pop_mode();
    assert_eq!(interaction.current_mode(), InteractionMode::Normal);
}
