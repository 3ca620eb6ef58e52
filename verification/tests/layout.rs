use themeprism::layout::{
    panel_for_number, Size, WorkspaceLayout,
    default_workspace_layout, panel_order, preview_focus_layout, project_workspace_layout,
    visible_panels_for_tab, workspace_layout_for_tab,
};
use themeprism::ui_meta::panel_workspace_tab;
use themeprism::workspace::{PanelId, WorkspaceTab};

#[test]
fn theme_tab_shows_theme_panels_in_reading_order() {
    let panels = visible_panels_for_tab(WorkspaceTab::Theme);
    assert!(panels.contains(&PanelId::Tokens));
    assert!(panels.contains(&PanelId::Preview));
    assert!(!panels.contains(&PanelId::ProjectConfig));
    for panel in &panels {
        assert_eq!(panel_workspace_tab(*panel), WorkspaceTab::Theme);
    }
}

#[test]
fn project_tab_shows_project_panels() {
    let panels = visible_panels_for_tab(WorkspaceTab::Project);
    assert!(panels.contains(&PanelId::ProjectConfig));
    assert!(panels.contains(&PanelId::ExportTargets));
    assert!(panels.contains(&PanelId::EditorPreferences));
    for panel in &panels {
        assert_eq!(panel_workspace_tab(*panel), WorkspaceTab::Project);
    }
}

#[test]
fn layouts_list_each_panel_once() {
    for layout in [
        default_workspace_layout(),
        preview_focus_layout(),
        project_workspace_layout(),
    ] {
        let order = panel_order(&layout);
        for (i, a) in order.iter().enumerate() {
            for b in order.iter().skip(i + 1) {
                assert_ne!(a, b);
            }
        }
    }
}

#[test]
fn tab_layouts_match_visible_panels() {
    for tab in WorkspaceTab::all() {
        assert_eq!(
            panel_order(&workspace_layout_for_tab(tab)),
            visible_panels_for_tab(tab)
        );
    }
}

#[test]
fn theme_layout_reads_left_column_then_middle_then_right() {
    assert_eq!(
        panel_order(&default_workspace_layout()),
        vec![
            PanelId::Tokens,
            PanelId::Params,
            PanelId::Palette,
            PanelId::ResolvedPrimary,
            PanelId::ResolvedSecondary,
            PanelId::Preview,
            PanelId::Inspector,
            PanelId::InteractionInspector,
        ]
    );
    assert_eq!(
        panel_order(&preview_focus_layout()),
        vec![
            PanelId::Tokens,
            PanelId::Params,
            PanelId::Preview,
            PanelId::Inspector,
            PanelId::InteractionInspector,
            PanelId::Palette,
        ]
    );
    assert_eq!(
        visible_panels_for_tab(WorkspaceTab::Project),
        vec![
            PanelId::ProjectConfig,
            PanelId::ExportTargets,
            PanelId::EditorPreferences,
        ]
    );
}

#[test]
fn digits_focus_visible_panels_in_the_current_tab() {
    assert_eq!(panel_for_number(WorkspaceTab::Theme, 6), Some(PanelId::Preview));
    assert_eq!(
        panel_for_number(WorkspaceTab::Theme, 8),
        Some(PanelId::InteractionInspector)
    );
    assert_eq!(
        panel_for_number(WorkspaceTab::Project, 3),
        Some(PanelId::EditorPreferences)
    );
    assert_eq!(panel_for_number(WorkspaceTab::Project, 4), None);
    assert_eq!(panel_for_number(WorkspaceTab::Theme, 0), Some(PanelId::Tokens));
}

#[test]
fn project_layout_column_holds_plain_panels() {
    let layout = project_workspace_layout();
    let WorkspaceLayout::Row(children) = &layout else {
        panic!("expected a row");
    };
    assert_eq!(children.len(), 2);
    assert!(matches!(children[0].node, WorkspaceLayout::Panel(PanelId::ProjectConfig)));
    let WorkspaceLayout::Column(column) = &children[1].node else {
        panic!("expected a column");
    };
    assert_eq!(column.len(), 2);
    assert_eq!(column[0].size, Size::Percentage(68));
    assert!(matches!(column[0].node, WorkspaceLayout::Panel(PanelId::ExportTargets)));
    assert_eq!(column[1].size, Size::Percentage(32));
    assert!(matches!(column[1].node, WorkspaceLayout::Panel(PanelId::EditorPreferences)));
}
