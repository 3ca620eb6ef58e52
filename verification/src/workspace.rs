use vstd::prelude::*;

verus! {

/// The two top-level workspaces of the editor.
#[derive(Debug, Clone, Copy, PartialEq, Eq, Hash, Structural)]
pub enum WorkspaceTab {
    Theme,
    Project,
}

/// Every panel that a workspace can show.
#[derive(Debug, Clone, Copy, PartialEq, Eq, Hash, Structural)]
pub enum PanelId {
    Tokens,
    Params,
    Preview,
    Palette,
    ResolvedPrimary,
    ResolvedSecondary,
    Inspector,
    InteractionInspector,
    ProjectConfig,
    ExportTargets,
    EditorPreferences,
}

/// The tab after `t`; with two tabs, also the tab before it.
pub open spec fn other_tab(t: WorkspaceTab) -> WorkspaceTab {
    match t {
        WorkspaceTab::Theme => WorkspaceTab::Project,
        WorkspaceTab::Project => WorkspaceTab::Theme,
    }
}

impl WorkspaceTab {
    /// Both tabs, in display order.
    pub fn all() -> (r: [WorkspaceTab; 2])
        ensures
            r@ == seq![WorkspaceTab::Theme, WorkspaceTab::Project],
    {
        [WorkspaceTab::Theme, WorkspaceTab::Project]
    }

    /// The tab that follows `self` when cycling forward.
    pub fn next(self) -> (r: Self)
        ensures
            r == other_tab(self),
    {
        match self {
            WorkspaceTab::Theme => WorkspaceTab::Project,
            WorkspaceTab::Project => WorkspaceTab::Theme,
        }
    }

    /// The tab that precedes `self` when cycling backward.
    pub fn previous(self) -> (r: Self)
        ensures
            r == other_tab(self),
    {
        match self {
            WorkspaceTab::Theme => WorkspaceTab::Project,
            WorkspaceTab::Project => WorkspaceTab::Theme,
        }
    }

    /// The panel that a tab focuses when it is first shown.
    pub fn default_panel(self) -> (r: PanelId)
        ensures
            r == (match self {
                WorkspaceTab::Theme => PanelId::Tokens,
                WorkspaceTab::Project => PanelId::ProjectConfig,
            }),
    {
        match self {
            WorkspaceTab::Theme => PanelId::Tokens,
            WorkspaceTab::Project => PanelId::ProjectConfig,
        }
    }
}

/// Cycling forward and then backward returns to the starting tab, and so does the reverse.
pub proof fn law_tab_next_previous_inverse(t: WorkspaceTab)
    ensures
        other_tab(other_tab(t)) == t,
{
}

} // verus!
