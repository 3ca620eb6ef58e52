use vstd::prelude::*;

use crate::workspace::PanelId;

verus! {

/// Every surface of the user interface that can hold focus or own a mode.
#[derive(Debug, Clone, Copy, PartialEq, Eq, Hash, Structural)]
pub enum SurfaceId {
    AppRoot,
    MainWindow,
    TokensPanel,
    ParamsPanel,
    PreviewPanel,
    PreviewTabs,
    PreviewBody,
    PalettePanel,
    ResolvedPrimaryPanel,
    ResolvedSecondaryPanel,
    InspectorPanel,
    InteractionInspectorPanel,
    ProjectConfigPanel,
    ExportTargetsPanel,
    EditorPreferencesPanel,
    NumericEditorSurface,
    SourcePicker,
    ConfigDialog,
    CommandPalette,
    ShortcutHelp,
}

/// The panel that a surface belongs to, if it belongs to one.
pub open spec fn surface_panel(s: SurfaceId) -> Option<PanelId> {
    match s {
            SurfaceId::TokensPanel => Some(PanelId::Tokens),
            SurfaceId::ParamsPanel => Some(PanelId::Params),
            SurfaceId::PreviewPanel => Some(PanelId::Preview),
            SurfaceId::PreviewTabs => Some(PanelId::Preview),
            SurfaceId::PreviewBody => Some(PanelId::Preview),
            SurfaceId::PalettePanel => Some(PanelId::Palette),
            SurfaceId::ResolvedPrimaryPanel => Some(PanelId::ResolvedPrimary),
            SurfaceId::ResolvedSecondaryPanel => Some(PanelId::ResolvedSecondary),
            SurfaceId::InspectorPanel => Some(PanelId::Inspector),
            SurfaceId::InteractionInspectorPanel => Some(PanelId::InteractionInspector),
            SurfaceId::ProjectConfigPanel => Some(PanelId::ProjectConfig),
            SurfaceId::ExportTargetsPanel => Some(PanelId::ExportTargets),
            SurfaceId::EditorPreferencesPanel => Some(PanelId::EditorPreferences),
        _ => None,
    }
}

/// The surface that stands for a whole panel.
pub open spec fn panel_surface(panel: PanelId) -> SurfaceId {
    match panel {
        PanelId::Tokens => SurfaceId::TokensPanel,
        PanelId::Params => SurfaceId::ParamsPanel,
        PanelId::Preview => SurfaceId::PreviewPanel,
        PanelId::Palette => SurfaceId::PalettePanel,
        PanelId::ResolvedPrimary => SurfaceId::ResolvedPrimaryPanel,
        PanelId::ResolvedSecondary => SurfaceId::ResolvedSecondaryPanel,
        PanelId::Inspector => SurfaceId::InspectorPanel,
        PanelId::InteractionInspector => SurfaceId::InteractionInspectorPanel,
        PanelId::ProjectConfig => SurfaceId::ProjectConfigPanel,
        PanelId::ExportTargets => SurfaceId::ExportTargetsPanel,
        PanelId::EditorPreferences => SurfaceId::EditorPreferencesPanel,
    }
}

impl SurfaceId {
    /// The panel that `self` belongs to, if any.
    pub fn panel_id(self) -> (r: Option<PanelId>)
        ensures
            r == surface_panel(self),
    {
        match self {
            SurfaceId::TokensPanel => Some(PanelId::Tokens),
            SurfaceId::ParamsPanel => Some(PanelId::Params),
            SurfaceId::PreviewPanel => Some(PanelId::Preview),
            SurfaceId::PreviewTabs => Some(PanelId::Preview),
            SurfaceId::PreviewBody => Some(PanelId::Preview),
            SurfaceId::PalettePanel => Some(PanelId::Palette),
            SurfaceId::ResolvedPrimaryPanel => Some(PanelId::ResolvedPrimary),
            SurfaceId::ResolvedSecondaryPanel => Some(PanelId::ResolvedSecondary),
            SurfaceId::InspectorPanel => Some(PanelId::Inspector),
            SurfaceId::InteractionInspectorPanel => Some(PanelId::InteractionInspector),
            SurfaceId::ProjectConfigPanel => Some(PanelId::ProjectConfig),
            SurfaceId::ExportTargetsPanel => Some(PanelId::ExportTargets),
            SurfaceId::EditorPreferencesPanel => Some(PanelId::EditorPreferences),
            _ => None,
        }
    }

    /// The surface that stands for `panel` in its workspace.
    pub fn workspace_surface(panel: PanelId) -> (r: SurfaceId)
        ensures
            r == panel_surface(panel),
    {
        match panel {
        PanelId::Tokens => SurfaceId::TokensPanel,
        PanelId::Params => SurfaceId::ParamsPanel,
        PanelId::Preview => SurfaceId::PreviewPanel,
        PanelId::Palette => SurfaceId::PalettePanel,
        PanelId::ResolvedPrimary => SurfaceId::ResolvedPrimaryPanel,
        PanelId::ResolvedSecondary => SurfaceId::ResolvedSecondaryPanel,
        PanelId::Inspector => SurfaceId::InspectorPanel,
        PanelId::InteractionInspector => SurfaceId::InteractionInspectorPanel,
        PanelId::ProjectConfig => SurfaceId::ProjectConfigPanel,
        PanelId::ExportTargets => SurfaceId::ExportTargetsPanel,
        PanelId::EditorPreferences => SurfaceId::EditorPreferencesPanel,
        }
    }

    /// Whether `self` is a workspace panel or a part of one.
    pub fn is_workspace_panel(self) -> (r: bool)
        ensures
            r == (surface_panel(self) is Some),
    {
        match self {
            SurfaceId::TokensPanel | SurfaceId::ParamsPanel | SurfaceId::PreviewPanel
            | SurfaceId::PreviewTabs | SurfaceId::PreviewBody | SurfaceId::PalettePanel
            | SurfaceId::ResolvedPrimaryPanel | SurfaceId::ResolvedSecondaryPanel
            | SurfaceId::InspectorPanel | SurfaceId::InteractionInspectorPanel
            | SurfaceId::ProjectConfigPanel | SurfaceId::ExportTargetsPanel
            | SurfaceId::EditorPreferencesPanel => true,
            _ => false,
        }
    }

    /// Whether `self` is the main window or a part of a workspace panel.
    pub fn is_workspace_surface(self) -> (r: bool)
        ensures
            r == (self == SurfaceId::MainWindow || surface_panel(self) is Some),
    {
        self == SurfaceId::MainWindow || self.is_workspace_panel()
    }
}

/// The surface of a panel belongs to that panel.
pub proof fn law_panel_surface_round_trip(panel: PanelId)
    ensures
        surface_panel(panel_surface(panel)) == Some(panel),
{
}

} // verus!
