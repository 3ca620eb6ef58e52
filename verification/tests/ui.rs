use themeprism::config::StatusMessage;
use themeprism::export::default_export_profiles;
use themeprism::i18n::UiText;
use themeprism::interaction::effective_focus_path;
use themeprism::interaction::routing::Intent;
use themeprism::interaction::state::{InteractionMode, InteractionState};
use themeprism::interaction::surface::SurfaceId;
use themeprism::editor_config::{EditorKeymapPreset, EditorLocale};
use themeprism::state::{ConfigFieldId, ConfigModalState, EditorState, ProjectState};
use themeprism::text_input::InputKind;
use themeprism::ui::{
    move_selection, update, Effect, SourcePickerState, Status, TextInputState, TextInputTarget,
    UiState,
};
use themeprism::workspace::{PanelId, WorkspaceTab};

fn ui() -> UiState {
    UiState {
        active_tab: WorkspaceTab::Theme,
        theme_panel: PanelId::Tokens,
        project_panel: PanelId::ProjectConfig,
        token_fields: vec![2, 4, 2],
        selected_token: 0,
        selected_param: 0,
        inspector_field: 0,
        project_field: 0,
        export_field: 0,
        editor_field: 0,
        interaction_inspector_scroll: 0,
        status: Status::Idle,
        should_quit: false,
        text_input: None,
        source_picker: None,
        config_modal: None,
        command_palette: None,
        shortcut_help_open: false,
        shortcut_help_scroll: 0,
        interaction: InteractionState::new(SurfaceId::TokensPanel),
    }
}

fn sample_project() -> ProjectState {
    ProjectState {
        name: "Untitled Theme".to_string(),
        export_profiles: default_export_profiles(),
    }
}

fn sample_editor() -> EditorState {
    EditorState {
        project_path: "projects/themeprism-project.toml".to_string(),
        keymap_preset: EditorKeymapPreset::Standard,
        locale: EditorLocale::EnUs,
    }
}

fn run(state: &mut UiState, intent: Intent) -> Vec<Effect> {
    let mut p = sample_project();
    let mut e = sample_editor();
    update(state, &mut p, &mut e, intent)
}

fn on_panel(panel: PanelId) -> UiState {
    let mut state = ui();
    state.set_active_panel(panel);
    state.interaction.focus_panel(panel);
    state
}

#[test]
fn navigation_intent_routes_through_public_update_entrypoint() {
    let mut state = ui();
    run(&mut state, Intent::FocusPanelByNumber(2));
    assert_eq!(state.active_panel(), PanelId::Params);
    assert_eq!(state.status, Status::FocusedPanel(PanelId::Params));
}

#[test]
fn modal_intent_toggles_shortcut_help_state() {
    let mut state = ui();
    run(&mut state, Intent::ToggleShortcutHelpRequested);
    assert!(state.shortcut_help_open);
}

#[test]
fn config_intents_open_modal_and_move_selection() {
    let mut state = ui();
    run(&mut state, Intent::OpenConfigRequested);
    run(&mut state, Intent::MoveConfigSelection(1));
    assert_eq!(state.config_modal, Some(ConfigModalState { selected_field: 1 }));
}

#[test]
fn text_input_intent_appends_to_seeded_buffer() {
    let mut state = ui();
    state.text_input = Some(TextInputState {
        target: TextInputTarget::Config(ConfigFieldId::ProjectName),
        buffer: String::new(),
    });
    run(&mut state, Intent::AppendTextInput('a'));
    assert_eq!(
        state.text_input.as_ref().map(|input| input.buffer.as_str()),
        Some("a")
    );
}

#[test]
fn interaction_inspector_panel_scrolls_instead_of_reporting_no_list_selection() {
    let mut state = on_panel(PanelId::InteractionInspector);
    let previous_status = state.status.clone();
    run(&mut state, Intent::MoveSelection(1));
    assert!(state.interaction_inspector_scroll > 0);
    assert_eq!(state.status, previous_status);
}

#[test]
fn config_and_help_flows_use_stack_owners() {
    let mut state = on_panel(PanelId::Inspector);

    run(&mut state, Intent::OpenConfigRequested);
    assert_eq!(
        state.interaction.current_mode(),
        InteractionMode::Modal { owner: SurfaceId::ConfigDialog }
    );
    assert_eq!(
        effective_focus_path(&state.interaction),
        vec![
            SurfaceId::AppRoot,
            SurfaceId::MainWindow,
            SurfaceId::InspectorPanel,
            SurfaceId::ConfigDialog,
        ]
    );

    run(&mut state, Intent::ToggleShortcutHelpRequested);
    assert_eq!(
        state.interaction.current_mode(),
        InteractionMode::Modal { owner: SurfaceId::ShortcutHelp }
    );
    assert_eq!(
        effective_focus_path(&state.interaction),
        vec![
            SurfaceId::AppRoot,
            SurfaceId::MainWindow,
            SurfaceId::InspectorPanel,
            SurfaceId::ShortcutHelp,
        ]
    );

    run(&mut state, Intent::ToggleShortcutHelpRequested);
    assert_eq!(state.interaction.current_mode(), InteractionMode::Normal);

    run(&mut state, Intent::OpenConfigRequested);
    run(&mut state, Intent::CloseConfigRequested);
    assert_eq!(state.interaction.current_mode(), InteractionMode::Normal);
}

#[test]
fn move_selection_closes_source_picker_without_leaving_stale_mode() {
    let mut state = on_panel(PanelId::Tokens);
    state.source_picker = Some(SourcePickerState {
        filter: String::new(),
        selected: 0,
    });
    state.interaction.push_mode_once(InteractionMode::Modal {
        owner: SurfaceId::SourcePicker,
    });
    state.interaction.focus_path.push(SurfaceId::SourcePicker);

    move_selection(&mut state, &sample_project(), 1);
    assert!(state.source_picker.is_none());
    assert_eq!(state.interaction.current_mode(), InteractionMode::Normal);
    assert_eq!(
        effective_focus_path(&state.interaction),
        vec![SurfaceId::AppRoot, SurfaceId::MainWindow, SurfaceId::TokensPanel]
    );
    assert_eq!(state.selected_token, 1);
}

#[test]
fn token_selection_wraps_and_keeps_the_inspector_field_in_range() {
    let mut state = on_panel(PanelId::Tokens);
    state.selected_token = 1;
    state.inspector_field = 3;
    move_selection(&mut state, &sample_project(), 1);
    assert_eq!(state.selected_token, 2);
    assert_eq!(state.inspector_field, 1);
    assert_eq!(state.status, Status::SelectedToken(2));
    move_selection(&mut state, &sample_project(), 1);
    assert_eq!(state.selected_token, 0);
}

#[test]
fn project_panels_cycle_their_fields() {
    let mut state = on_panel(PanelId::ExportTargets);
    move_selection(&mut state, &sample_project(), -1);
    assert_eq!(state.export_field, 5);
    assert_eq!(state.status, Status::SelectedField(ConfigFieldId::ExportTemplatePath(1)));
    let mut preview = on_panel(PanelId::Preview);
    move_selection(&mut preview, &sample_project(), 1);
    assert_eq!(preview.status, Status::PanelNoListSelection(PanelId::Preview));
}

#[test]
fn switching_tabs_remembers_each_tabs_panel() {
    let mut state = on_panel(PanelId::Inspector);
    run(&mut state, Intent::CycleWorkspaceTab(1));
    assert_eq!(state.active_tab, WorkspaceTab::Project);
    assert_eq!(state.active_panel(), PanelId::ProjectConfig);
    assert_eq!(
        state.status,
        Status::SwitchedTab { tab: WorkspaceTab::Project, panel: PanelId::ProjectConfig }
    );
    run(&mut state, Intent::SetWorkspaceTab(WorkspaceTab::Theme));
    assert_eq!(state.active_panel(), PanelId::Inspector);
    assert_eq!(state.interaction.focused_surface(), SurfaceId::InspectorPanel);
}

#[test]
fn open_dialogs_hold_back_navigation_and_control_work() {
    let mut state = ui();
    run(&mut state, Intent::OpenConfigRequested);
    assert!(run(&mut state, Intent::AdjustControlByStep(1)).is_empty());
    run(&mut state, Intent::FocusPanelByNumber(3));
    assert_eq!(state.active_panel(), PanelId::Tokens);
    run(&mut state, Intent::CloseConfigRequested);
    assert_eq!(state.status, Status::ConfigClosed);
    assert_eq!(run(&mut state, Intent::AdjustControlByStep(1)), vec![Effect::AdjustControlByStep(1)]);
    run(&mut state, Intent::FocusPanelByNumber(9));
    assert_eq!(
        state.status,
        Status::TabOnlyHasPanels { tab: WorkspaceTab::Theme, count: 8 }
    );
}

#[test]
fn committing_a_config_field_applies_it_and_closes_the_input() {
    let mut state = ui();
    let mut p = sample_project();
    let mut e = sample_editor();
    state.text_input = Some(TextInputState {
        target: TextInputTarget::Config(ConfigFieldId::ProjectName),
        buffer: "  Aurora ".to_string(),
    });
    let effects = update(&mut state, &mut p, &mut e, Intent::CommitTextInput);
    assert!(effects.is_empty());
    assert_eq!(p.name, "Aurora");
    assert!(state.text_input.is_none());
    assert_eq!(
        state.status,
        Status::Config(StatusMessage::ProjectNameUpdated { name: "Aurora".to_string() })
    );
}

#[test]
fn activating_a_dialog_field_opens_its_text_input() {
    let mut state = ui();
    let mut p = sample_project();
    let mut e = sample_editor();
    update(&mut state, &mut p, &mut e, Intent::OpenConfigRequested);
    update(&mut state, &mut p, &mut e, Intent::ActivateConfigField);
    assert_eq!(
        state.text_input,
        Some(TextInputState {
            target: TextInputTarget::Config(ConfigFieldId::ProjectName),
            buffer: "Untitled Theme".to_string(),
        })
    );
    assert_eq!(state.status, Status::EditingText(ConfigFieldId::ProjectName));
    update(&mut state, &mut p, &mut e, Intent::CancelTextInput);
    update(&mut state, &mut p, &mut e, Intent::MoveConfigSelection(-1));
    update(&mut state, &mut p, &mut e, Intent::MoveConfigSelection(-1));
    let effects = update(&mut state, &mut p, &mut e, Intent::ActivateConfigField);
    assert_eq!(e.keymap_preset, EditorKeymapPreset::Vim);
    assert_eq!(effects, vec![Effect::SaveEditorConfig]);
}

#[test]
fn hex_inputs_take_upper_case_digits_and_refuse_others() {
    let mut state = ui();
    state.text_input = Some(TextInputState {
        target: TextInputTarget::Control(InputKind::HexColor),
        buffer: "#".to_string(),
    });
    run(&mut state, Intent::AppendTextInput('a'));
    run(&mut state, Intent::AppendTextInput('z'));
    assert_eq!(state.text_input.as_ref().map(|i| i.buffer.as_str()), Some("#A"));
    assert_eq!(
        state.status,
        Status::InvalidCharacter {
            ch: 'z',
            target: TextInputTarget::Control(InputKind::HexColor)
        }
    );
    assert_eq!(run(&mut state, Intent::CommitTextInput), vec![Effect::CommitControlInput]);
    run(&mut state, Intent::BackspaceTextInput);
    assert_eq!(state.text_input.as_ref().map(|i| i.buffer.as_str()), Some("#"));
}

#[test]
fn palette_query_edits_reset_the_highlight() {
    let mut state = ui();
    run(&mut state, Intent::OpenCommandPaletteRequested);
    run(&mut state, Intent::AppendCommandPaletteQuery('p'));
    run(&mut state, Intent::MoveCommandPaletteSelection(1));
    assert_eq!(state.command_palette.as_ref().map(|p| p.selected), Some(1));
    run(&mut state, Intent::AppendCommandPaletteQuery('r'));
    let palette = state.command_palette.as_ref().unwrap();
    assert_eq!(palette.query, "pr");
    assert_eq!(palette.selected, 0);
    run(&mut state, Intent::CloseCommandPaletteRequested);
    assert!(state.command_palette.is_none());
    assert_eq!(state.interaction.current_mode(), InteractionMode::Normal);
}

#[test]
fn reset_restores_project_and_clears_dialogs() {
    let mut state = on_panel(PanelId::Params);
    let mut p = sample_project();
    p.name = "Other".to_string();
    p.export_profiles.clear();
    let mut e = sample_editor();
    state.selected_param = 4;
    state.interaction.push_mode_once(InteractionMode::Capture { owner: SurfaceId::PreviewBody });
    update(&mut state, &mut p, &mut e, Intent::OpenConfigRequested);
    let effects = update(&mut state, &mut p, &mut e, Intent::ResetRequested);
    assert_eq!(effects, vec![Effect::ResetTheme]);
    assert_eq!(p.name, "Untitled Theme");
    assert_eq!(p.export_profiles, default_export_profiles());
    assert_eq!(state.selected_param, 0);
    assert!(state.config_modal.is_none());
    assert_eq!(state.interaction.current_mode(), InteractionMode::Normal);
}

#[test]
fn quit_and_file_work_are_handed_on() {
    let mut state = ui();
    run(&mut state, Intent::QuitRequested);
    assert!(state.should_quit);
    assert_eq!(run(&mut state, Intent::SaveProjectRequested), vec![Effect::SaveProject]);
    assert_eq!(run(&mut state, Intent::LoadProjectRequested), vec![Effect::LoadProject]);
    assert_eq!(run(&mut state, Intent::ExportThemeRequested), vec![Effect::ExportTheme]);
}

#[test]
fn statuses_name_their_messages() {
    assert_eq!(Status::Idle.key(), None);
    assert_eq!(Status::ConfigOpened.key(), Some(UiText::StatusConfigOpened));
    assert_eq!(
        Status::Config(StatusMessage::InputEmpty).key(),
        Some(UiText::ErrorInputEmpty)
    );
    assert_eq!(Status::FocusedMainWindow.key(), Some(UiText::StatusFocusedSurface));
}
