use vstd::prelude::*;

use crate::i18n::UiText;
use crate::preview::PreviewMode;
use crate::workspace::{PanelId, WorkspaceTab};

verus! {

/// Static description of a panel.
#[derive(Debug, Clone, Copy, PartialEq, Eq)]
pub struct PanelSpec {
    pub id: PanelId,
    pub ui_text: UiText,
    pub workspace_tab: WorkspaceTab,
}

/// Static description of a workspace tab.
#[derive(Debug, Clone, Copy, PartialEq, Eq)]
pub struct WorkspaceTabSpec {
    pub id: WorkspaceTab,
    pub ui_text: UiText,
    pub hint_navigation: bool,
}

/// Static description of a preview mode.
#[derive(Debug, Clone, Copy, PartialEq, Eq)]
pub struct PreviewModeSpec {
    pub id: PreviewMode,
    pub ui_text: UiText,
    pub hint_navigation: bool,
}

/// The title of a panel.
pub open spec fn panel_title(id: PanelId) -> UiText {
    match id {
        PanelId::Tokens => UiText::PanelTokenList,
        PanelId::Params => UiText::PanelThemeParams,
        PanelId::Preview => UiText::PanelPreviewSampleCode,
        PanelId::Palette => UiText::PanelPalette,
        PanelId::ResolvedPrimary => UiText::PanelResolvedTokens,
        PanelId::ResolvedSecondary => UiText::PanelResolvedTokensSecondary,
        PanelId::Inspector => UiText::PanelInspector,
        PanelId::InteractionInspector => UiText::PanelInteractionInspector,
        PanelId::ProjectConfig => UiText::PanelProjectConfig,
        PanelId::ExportTargets => UiText::PanelExportTargets,
        PanelId::EditorPreferences => UiText::PanelEditorPreferences,
    }
}

/// The workspace tab that owns a panel.
pub open spec fn panel_tab(id: PanelId) -> WorkspaceTab {
    if id == PanelId::Tokens || id == PanelId::Params || id == PanelId::Preview || id == PanelId::Palette || id == PanelId::ResolvedPrimary || id == PanelId::ResolvedSecondary || id == PanelId::Inspector || id == PanelId::InteractionInspector {
        WorkspaceTab::Theme
    } else {
        WorkspaceTab::Project
    }
}

/// The description of panel `id`; every panel has one.
pub fn panel_spec(id: PanelId) -> (r: PanelSpec)
    ensures
        r.id == id,
        r.ui_text == panel_title(id),
        r.workspace_tab == panel_tab(id),
{
    match id {
        PanelId::Tokens => PanelSpec { id, ui_text: UiText::PanelTokenList, workspace_tab: WorkspaceTab::Theme },
        PanelId::Params => PanelSpec { id, ui_text: UiText::PanelThemeParams, workspace_tab: WorkspaceTab::Theme },
        PanelId::Preview => PanelSpec { id, ui_text: UiText::PanelPreviewSampleCode, workspace_tab: WorkspaceTab::Theme },
        PanelId::Palette => PanelSpec { id, ui_text: UiText::PanelPalette, workspace_tab: WorkspaceTab::Theme },
        PanelId::ResolvedPrimary => PanelSpec { id, ui_text: UiText::PanelResolvedTokens, workspace_tab: WorkspaceTab::Theme },
        PanelId::ResolvedSecondary => PanelSpec { id, ui_text: UiText::PanelResolvedTokensSecondary, workspace_tab: WorkspaceTab::Theme },
        PanelId::Inspector => PanelSpec { id, ui_text: UiText::PanelInspector, workspace_tab: WorkspaceTab::Theme },
        PanelId::InteractionInspector => PanelSpec { id, ui_text: UiText::PanelInteractionInspector, workspace_tab: WorkspaceTab::Theme },
        PanelId::ProjectConfig => PanelSpec { id, ui_text: UiText::PanelProjectConfig, workspace_tab: WorkspaceTab::Project },
        PanelId::ExportTargets => PanelSpec { id, ui_text: UiText::PanelExportTargets, workspace_tab: WorkspaceTab::Project },
        PanelId::EditorPreferences => PanelSpec { id, ui_text: UiText::PanelEditorPreferences, workspace_tab: WorkspaceTab::Project },
    }
}

/// The workspace tab that owns panel `id`.
pub fn panel_workspace_tab(id: PanelId) -> (r: WorkspaceTab)
    ensures
        r == panel_tab(id),
{
    panel_spec(id).workspace_tab
}

/// The description of workspace tab `id`.
pub fn workspace_tab_spec(id: WorkspaceTab) -> (r: WorkspaceTabSpec)
    ensures
        r.id == id,
        r.ui_text == (match id {
            WorkspaceTab::Theme => UiText::TabTheme,
            WorkspaceTab::Project => UiText::TabProject,
        }),
        r.hint_navigation,
{
    match id {
        WorkspaceTab::Theme => WorkspaceTabSpec { id, ui_text: UiText::TabTheme, hint_navigation: true },
        WorkspaceTab::Project => WorkspaceTabSpec { id, ui_text: UiText::TabProject, hint_navigation: true },
    }
}

/// The description of preview mode `id`.
pub fn preview_mode_spec(id: PreviewMode) -> (r: PreviewModeSpec)
    ensures
        r.id == id,
        r.ui_text == (match id {
            PreviewMode::Code => UiText::PreviewModeCode,
            PreviewMode::Shell => UiText::PreviewModeShell,
            PreviewMode::Lazygit => UiText::PreviewModeLazygit,
        }),
        r.hint_navigation,
{
    match id {
        PreviewMode::Code => PreviewModeSpec { id, ui_text: UiText::PreviewModeCode, hint_navigation: true },
        PreviewMode::Shell => PreviewModeSpec { id, ui_text: UiText::PreviewModeShell, hint_navigation: true },
        PreviewMode::Lazygit => PreviewModeSpec { id, ui_text: UiText::PreviewModeLazygit, hint_navigation: true },
    }
}

} // verus!
