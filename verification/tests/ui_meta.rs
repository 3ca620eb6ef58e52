use themeprism::i18n::UiText;
use themeprism::preview::PreviewMode;
use themeprism::ui_meta::{panel_spec, panel_workspace_tab, preview_mode_spec, workspace_tab_spec};
use themeprism::workspace::{PanelId, WorkspaceTab};

const ALL_PANELS: [PanelId; 11] = [
    PanelId::Tokens,
    PanelId::Params,
    PanelId::Preview,
    PanelId::Palette,
    PanelId::ResolvedPrimary,
    PanelId::ResolvedSecondary,
    PanelId::Inspector,
    PanelId::InteractionInspector,
    PanelId::ProjectConfig,
    PanelId::ExportTargets,
    PanelId::EditorPreferences,
];

#[test]
fn panel_specs_cover_every_panel_id() {
    for panel in ALL_PANELS {
        let spec = panel_spec(panel);
        assert_eq!(spec.id, panel);
    }
}

#[test]
fn preview_mode_specs_cover_every_preview_mode() {
    for mode in PreviewMode::all() {
        let spec = preview_mode_spec(mode);
        assert_eq!(spec.id, mode);
    }
}

#[test]
fn workspace_tab_specs_cover_every_workspace_tab() {
    for tab in WorkspaceTab::all() {
        let spec = workspace_tab_spec(tab);
        assert_eq!(spec.id, tab);
    }
}

#[test]
fn panels_belong_to_their_workspace_tab() {
    assert_eq!(panel_workspace_tab(PanelId::Tokens), WorkspaceTab::Theme);
    assert_eq!(panel_workspace_tab(PanelId::InteractionInspector), WorkspaceTab::Theme);
    assert_eq!(panel_workspace_tab(PanelId::ProjectConfig), WorkspaceTab::Project);
    assert_eq!(panel_workspace_tab(PanelId::EditorPreferences), WorkspaceTab::Project);
    for panel in ALL_PANELS {
        assert_eq!(panel_spec(panel).workspace_tab, panel_workspace_tab(panel));
    }
}

#[test]
fn panel_titles_use_their_ui_text() {
    assert_eq!(panel_spec(PanelId::Preview).ui_text, UiText::PanelPreviewSampleCode);
    assert_eq!(panel_spec(PanelId::ExportTargets).ui_text, UiText::PanelExportTargets);
    assert_eq!(workspace_tab_spec(WorkspaceTab::Theme).ui_text, UiText::TabTheme);
    assert_eq!(preview_mode_spec(PreviewMode::Shell).ui_text, UiText::PreviewModeShell);
}
