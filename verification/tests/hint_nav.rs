use themeprism::hint_nav::{
    main_window_hint_targets, preview_tab_hint_label, workspace_tab_hint_label, HintTarget,
};
use themeprism::interaction::state::{InteractionMode, InteractionState};
use themeprism::interaction::surface::SurfaceId;
use themeprism::preview::PreviewMode;
use themeprism::ui_meta::{preview_mode_spec, workspace_tab_spec};
use themeprism::workspace::{PanelId, WorkspaceTab};

#[test]
fn main_window_hint_targets_flatten_visible_panels_and_tabs() {
    let targets = main_window_hint_targets(WorkspaceTab::Theme);

    assert!(targets.contains(&HintTarget::Panel {
        label: '1',
        panel: PanelId::Tokens,
    }));
    assert!(targets.contains(&HintTarget::WorkspaceTab {
        label: 'a',
        tab: workspace_tab_spec(WorkspaceTab::Theme).id,
    }));
    assert!(targets.contains(&HintTarget::WorkspaceTab {
        label: 'b',
        tab: workspace_tab_spec(WorkspaceTab::Project).id,
    }));
    assert!(targets.contains(&HintTarget::PreviewTab {
        label: 'c',
        mode: preview_mode_spec(PreviewMode::Code).id,
    }));
    assert!(targets.contains(&HintTarget::PreviewTab {
        label: 'd',
        mode: preview_mode_spec(PreviewMode::Shell).id,
    }));
    assert!(targets.contains(&HintTarget::PreviewTab {
        label: 'e',
        mode: preview_mode_spec(PreviewMode::Lazygit).id,
    }));
}

#[test]
fn project_tab_hints_do_not_include_preview_tabs() {
    let mut interaction = InteractionState::new(SurfaceId::ProjectConfigPanel);
    interaction.set_mode(InteractionMode::NavigateScope(SurfaceId::MainWindow));

    assert_eq!(
        workspace_tab_hint_label(WorkspaceTab::Project, &interaction, WorkspaceTab::Theme),
        Some('a')
    );
    assert_eq!(
        workspace_tab_hint_label(WorkspaceTab::Project, &interaction, WorkspaceTab::Project),
        Some('b')
    );
    assert_eq!(
        preview_tab_hint_label(WorkspaceTab::Project, &interaction, PreviewMode::Code),
        None
    );
}

#[test]
fn theme_hints_number_panels_in_layout_order() {
    let targets = main_window_hint_targets(WorkspaceTab::Theme);
    assert_eq!(targets.len(), 13);
    assert_eq!(
        targets[5],
        HintTarget::Panel {
            label: '6',
            panel: PanelId::Preview
        }
    );
    assert_eq!(
        targets[7],
        HintTarget::Panel {
            label: '8',
            panel: PanelId::InteractionInspector
        }
    );
    assert_eq!(targets[8].label(), 'a');
    let project = main_window_hint_targets(WorkspaceTab::Project);
    assert_eq!(project.len(), 5);
    assert_eq!(
        project[2],
        HintTarget::Panel {
            label: '3',
            panel: PanelId::EditorPreferences
        }
    );
}

#[test]
fn hint_labels_need_scope_navigation_on_the_main_window() {
    let interaction = InteractionState::new(SurfaceId::TokensPanel);
    assert_eq!(
        workspace_tab_hint_label(WorkspaceTab::Theme, &interaction, WorkspaceTab::Project),
        None
    );
    let mut scoped = interaction.clone();
    scoped.set_mode(InteractionMode::NavigateScope(SurfaceId::MainWindow));
    assert_eq!(
        preview_tab_hint_label(WorkspaceTab::Theme, &scoped, PreviewMode::Shell),
        Some('d')
    );
}
