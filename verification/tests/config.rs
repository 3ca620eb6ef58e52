use themeprism::config::{
    activate_config_field, active_config_field, apply_config_input, config_dialog, config_field_label, config_field_name,
    config_fields, default_config_input, move_config_selection, panel_fields, ConfigActivation, ConfigLine, set_export_enabled, set_export_output_path,
    set_export_template_path, set_project_name, toggle_export_enabled, StatusMessage,
};
use themeprism::editor_config::{EditorKeymapPreset, EditorLocale};
use themeprism::export::{default_export_profiles, ExportFormat};
use themeprism::i18n::UiText;
use themeprism::state::{ConfigFieldId, ConfigModalState, EditorState, ProjectState};
use themeprism::update::{scroll_shortcut_help, step_selection};
use themeprism::workspace::PanelId;

fn project() -> ProjectState {
    ProjectState {
        name: "Untitled Theme".to_string(),
        export_profiles: default_export_profiles(),
    }
}

fn editor() -> EditorState {
    EditorState {
        project_path: "projects/themeprism-project.toml".to_string(),
        keymap_preset: EditorKeymapPreset::Standard,
        locale: EditorLocale::EnUs,
    }
}

#[test]
fn config_fields_list_targets_between_project_and_editor_fields() {
    assert_eq!(
        config_fields(&project()),
        vec![
            ConfigFieldId::ProjectName,
            ConfigFieldId::ExportEnabled(0),
            ConfigFieldId::ExportOutputPath(0),
            ConfigFieldId::ExportTemplatePath(0),
            ConfigFieldId::ExportEnabled(1),
            ConfigFieldId::ExportOutputPath(1),
            ConfigFieldId::ExportTemplatePath(1),
            ConfigFieldId::EditorProjectPath,
            ConfigFieldId::EditorKeymapPreset,
            ConfigFieldId::EditorLocale,
        ]
    );
    let empty = ProjectState {
        name: String::new(),
        export_profiles: Vec::new(),
    };
    assert_eq!(config_fields(&empty).len(), 4);
}

#[test]
fn text_input_trims_and_updates_the_field() {
    let mut p = project();
    let mut e = editor();
    let r = apply_config_input(&mut p, &mut e, ConfigFieldId::ProjectName, "  Solar  ");
    assert_eq!(
        r,
        Ok(StatusMessage::ProjectNameUpdated {
            name: "Solar".to_string()
        })
    );
    assert_eq!(p.name, "Solar");

    let r = apply_config_input(&mut p, &mut e, ConfigFieldId::EditorProjectPath, "a.toml\n");
    assert_eq!(r.unwrap().key(), UiText::StatusProjectFilePathUpdated);
    assert_eq!(e.project_path, "a.toml");

    let r = apply_config_input(&mut p, &mut e, ConfigFieldId::ExportOutputPath(1), " out.txt");
    assert_eq!(
        r,
        Ok(StatusMessage::ExportOutputUpdated {
            name: "Template".to_string(),
            path: "out.txt".to_string()
        })
    );
    assert_eq!(p.export_profiles[1].output_path, "out.txt");
    assert_eq!(p.export_profiles[0], default_export_profiles()[0]);

    let r = apply_config_input(&mut p, &mut e, ConfigFieldId::ExportTemplatePath(0), "t.txt");
    assert!(r.is_ok());
    assert_eq!(
        p.export_profiles[0].format,
        ExportFormat::Template {
            template_path: "t.txt".to_string()
        }
    );
}

#[test]
fn text_input_refusals_leave_settings_alone() {
    let mut p = project();
    let mut e = editor();
    assert_eq!(
        apply_config_input(&mut p, &mut e, ConfigFieldId::ProjectName, "   "),
        Err(StatusMessage::InputEmpty)
    );
    assert_eq!(
        apply_config_input(&mut p, &mut e, ConfigFieldId::EditorLocale, "zh"),
        Err(StatusMessage::UseToggleChoicePreference)
    );
    assert_eq!(
        apply_config_input(&mut p, &mut e, ConfigFieldId::ExportEnabled(0), "yes"),
        Err(StatusMessage::ToggleExportTarget { index: 0 })
    );
    assert_eq!(
        apply_config_input(&mut p, &mut e, ConfigFieldId::ExportOutputPath(5), "x"),
        Err(StatusMessage::MissingExportTarget { index: 5 })
    );
    assert_eq!(p, project());
    assert_eq!(e, editor());
}

#[test]
fn export_targets_toggle_and_move() {
    let mut p = project();
    assert_eq!(
        toggle_export_enabled(&mut p, 1),
        StatusMessage::ExportTargetEnabled {
            name: "Template".to_string()
        }
    );
    assert!(p.export_profiles[1].enabled);
    toggle_export_enabled(&mut p, 1);
    assert_eq!(p, project());

    assert_eq!(
        set_export_enabled(&mut p, 0, false),
        StatusMessage::ExportTargetDisabled {
            name: "Alacritty".to_string()
        }
    );
    assert_eq!(
        set_export_enabled(&mut p, 2, true),
        StatusMessage::MissingExportTarget { index: 2 }
    );
    set_export_output_path(&mut p, 0, "theme.toml".to_string());
    assert_eq!(p.export_profiles[0].output_path, "theme.toml");
    set_export_template_path(&mut p, 1, "mine.txt".to_string());
    assert_eq!(p.export_profiles[1].template_path(), "mine.txt");
    assert_eq!(
        set_export_template_path(&mut p, 9, "x".to_string()),
        StatusMessage::MissingExportTarget { index: 9 }
    );
}

#[test]
fn project_names_are_trimmed_and_must_not_be_empty() {
    let mut p = project();
    assert_eq!(set_project_name(&mut p, " \t"), StatusMessage::ProjectNameEmpty);
    assert_eq!(p.name, "Untitled Theme");
    set_project_name(&mut p, " Dusk ");
    assert_eq!(p.name, "Dusk");
}

#[test]
fn editor_state_gives_its_configuration() {
    let e = editor();
    let config = e.editor_config();
    assert_eq!(config.project_path, "projects/themeprism-project.toml");
    assert_eq!(config.keymap_preset, EditorKeymapPreset::Standard);
    assert_eq!(e.locale(), EditorLocale::EnUs);
}

fn field(field: ConfigFieldId, selected: bool) -> ConfigLine {
    ConfigLine::Field { field, selected }
}

#[test]
fn config_dialog_groups_fields_under_their_sections() {
    let lines = config_dialog(&project(), ConfigModalState { selected_field: 2 });
    assert_eq!(
        lines,
        vec![
            ConfigLine::Header(UiText::ConfigSectionProjectSaved),
            field(ConfigFieldId::ProjectName, false),
            ConfigLine::Header(UiText::ConfigSectionExportSaved),
            field(ConfigFieldId::ExportEnabled(0), false),
            field(ConfigFieldId::ExportOutputPath(0), true),
            field(ConfigFieldId::ExportTemplatePath(0), false),
            field(ConfigFieldId::ExportEnabled(1), false),
            field(ConfigFieldId::ExportOutputPath(1), false),
            field(ConfigFieldId::ExportTemplatePath(1), false),
            ConfigLine::Header(UiText::ConfigSectionEditorLocal),
            field(ConfigFieldId::EditorProjectPath, false),
            field(ConfigFieldId::EditorKeymapPreset, false),
            field(ConfigFieldId::EditorLocale, false),
        ]
    );
}

#[test]
fn config_dialog_holds_a_selection_past_the_end_to_the_last_field() {
    let lines = config_dialog(&project(), ConfigModalState { selected_field: 99 });
    let selected: Vec<&ConfigLine> = lines
        .iter()
        .filter(|line| matches!(line, ConfigLine::Field { selected: true, .. }))
        .collect();
    assert_eq!(selected, vec![&field(ConfigFieldId::EditorLocale, true)]);
}

#[test]
fn config_dialog_without_targets_keeps_every_heading() {
    let empty = ProjectState {
        name: "x".to_string(),
        export_profiles: Vec::new(),
    };
    let lines = config_dialog(&empty, ConfigModalState { selected_field: 0 });
    assert_eq!(
        lines,
        vec![
            ConfigLine::Header(UiText::ConfigSectionProjectSaved),
            field(ConfigFieldId::ProjectName, true),
            ConfigLine::Header(UiText::ConfigSectionExportSaved),
            ConfigLine::Header(UiText::ConfigSectionEditorLocal),
            field(ConfigFieldId::EditorProjectPath, false),
            field(ConfigFieldId::EditorKeymapPreset, false),
            field(ConfigFieldId::EditorLocale, false),
        ]
    );
}

#[test]
fn panels_edit_their_own_fields() {
    let p = project();
    assert_eq!(panel_fields(&p, PanelId::ProjectConfig), vec![ConfigFieldId::ProjectName]);
    assert_eq!(
        panel_fields(&p, PanelId::ExportTargets),
        vec![
            ConfigFieldId::ExportEnabled(0),
            ConfigFieldId::ExportOutputPath(0),
            ConfigFieldId::ExportTemplatePath(0),
            ConfigFieldId::ExportEnabled(1),
            ConfigFieldId::ExportOutputPath(1),
            ConfigFieldId::ExportTemplatePath(1),
        ]
    );
    assert_eq!(
        panel_fields(&p, PanelId::EditorPreferences),
        vec![
            ConfigFieldId::EditorProjectPath,
            ConfigFieldId::EditorKeymapPreset,
            ConfigFieldId::EditorLocale,
        ]
    );
    assert!(panel_fields(&p, PanelId::Tokens).is_empty());
}

#[test]
fn active_config_field_holds_the_index_to_the_panel() {
    let p = project();
    assert_eq!(
        active_config_field(&p, PanelId::ExportTargets, 4),
        Some(ConfigFieldId::ExportOutputPath(1))
    );
    assert_eq!(
        active_config_field(&p, PanelId::EditorPreferences, 10),
        Some(ConfigFieldId::EditorLocale)
    );
    assert_eq!(
        active_config_field(&p, PanelId::ProjectConfig, 3),
        Some(ConfigFieldId::ProjectName)
    );
    assert_eq!(active_config_field(&p, PanelId::Preview, 0), None);
}

#[test]
fn step_selection_wraps_and_holds() {
    assert_eq!(step_selection(0, 0, 1), None);
    assert_eq!(step_selection(2, 3, 1), Some(0));
    assert_eq!(step_selection(0, 3, -1), Some(2));
    assert_eq!(step_selection(9, 3, 0), Some(2));
    assert_eq!(step_selection(1, 6, 7), Some(2));
}

#[test]
fn config_selection_wraps_over_all_dialog_fields() {
    let p = project();
    let mut modal = Some(ConfigModalState { selected_field: 9 });
    move_config_selection(&mut modal, &p, 1);
    assert_eq!(modal, Some(ConfigModalState { selected_field: 0 }));
    move_config_selection(&mut modal, &p, -1);
    assert_eq!(modal, Some(ConfigModalState { selected_field: 9 }));
    let mut past_end = Some(ConfigModalState { selected_field: 40 });
    move_config_selection(&mut past_end, &p, -2);
    assert_eq!(past_end, Some(ConfigModalState { selected_field: 7 }));
    let mut closed: Option<ConfigModalState> = None;
    move_config_selection(&mut closed, &p, 1);
    assert_eq!(closed, None);
}

#[test]
fn shortcut_help_scroll_stops_at_both_ends() {
    assert_eq!(scroll_shortcut_help(true, 3, 2), 5);
    assert_eq!(scroll_shortcut_help(true, 3, -5), 0);
    assert_eq!(scroll_shortcut_help(true, 65_530, 10), u16::MAX);
    assert_eq!(scroll_shortcut_help(false, 3, 2), 3);
    assert_eq!(scroll_shortcut_help(true, 7, 65_537), 8);
    assert_eq!(scroll_shortcut_help(true, 7, -65_536), 7);
}

#[test]
fn editing_a_field_starts_from_its_current_text() {
    let mut p = project();
    let e = editor();
    assert_eq!(default_config_input(&p, &e, ConfigFieldId::ProjectName), "Untitled Theme");
    assert_eq!(
        default_config_input(&p, &e, ConfigFieldId::EditorProjectPath),
        "projects/themeprism-project.toml"
    );
    p.export_profiles[0].output_path = "out/theme.toml".to_string();
    assert_eq!(default_config_input(&p, &e, ConfigFieldId::ExportOutputPath(0)), "out/theme.toml");
    p.export_profiles[1].format = ExportFormat::Template {
        template_path: "templates/mine.txt".to_string(),
    };
    assert_eq!(
        default_config_input(&p, &e, ConfigFieldId::ExportTemplatePath(1)),
        "templates/mine.txt"
    );
    p.export_profiles[1].format = ExportFormat::Alacritty;
    assert_eq!(default_config_input(&p, &e, ConfigFieldId::ExportTemplatePath(1)), "");
    assert_eq!(default_config_input(&p, &e, ConfigFieldId::ExportOutputPath(7)), "");
    assert_eq!(default_config_input(&p, &e, ConfigFieldId::ExportEnabled(0)), "");
    assert_eq!(default_config_input(&p, &e, ConfigFieldId::EditorLocale), "");
}

#[test]
fn fields_are_named_and_labelled_with_their_target() {
    assert_eq!(
        config_field_name(ConfigFieldId::ExportOutputPath(2)),
        (UiText::FieldExportOutputPath, Some(2))
    );
    assert_eq!(config_field_name(ConfigFieldId::EditorLocale), (UiText::FieldLanguageLower, None));
    assert_eq!(
        config_field_label(ConfigFieldId::ExportEnabled(1)),
        (UiText::ConfigLabelTarget, Some(1))
    );
    assert_eq!(
        config_field_label(ConfigFieldId::ProjectName),
        (UiText::ConfigLabelProjectName, None)
    );
}

#[test]
fn presets_and_languages_name_their_text() {
    assert_eq!(EditorKeymapPreset::Vim.label_text(), UiText::KeymapVimLabel);
    assert_eq!(EditorLocale::ZhCn.label_text(), UiText::LocaleChineseSimplified);
    assert_eq!(
        themeprism::focus::FocusPane::Params.label_text(),
        UiText::FocusParams
    );
}

#[test]
fn activating_a_text_field_opens_it_with_its_text() {
    let mut p = project();
    let mut e = editor();
    let r = activate_config_field(&mut p, &mut e, ConfigFieldId::ProjectName);
    assert_eq!(
        r,
        ConfigActivation::EditText {
            field: ConfigFieldId::ProjectName,
            start: "Untitled Theme".to_string(),
        }
    );
    assert_eq!(p, project());
    assert_eq!(e, editor());
}

#[test]
fn activating_an_export_target_toggles_it() {
    let mut p = project();
    let mut e = editor();
    let was = p.export_profiles[0].enabled;
    let name = p.export_profiles[0].name.clone();
    let r = activate_config_field(&mut p, &mut e, ConfigFieldId::ExportEnabled(0));
    assert_eq!(p.export_profiles[0].enabled, !was);
    let status = if was {
        StatusMessage::ExportTargetDisabled { name }
    } else {
        StatusMessage::ExportTargetEnabled { name }
    };
    assert_eq!(r, ConfigActivation::Updated { status, save_editor_config: false });
    let r = activate_config_field(&mut p, &mut e, ConfigFieldId::ExportEnabled(5));
    assert_eq!(
        r,
        ConfigActivation::Updated {
            status: StatusMessage::MissingExportTarget { index: 5 },
            save_editor_config: false,
        }
    );
}

#[test]
fn activating_keymap_and_language_cycles_and_saves_editor_settings() {
    let mut p = project();
    let mut e = editor();
    let r = activate_config_field(&mut p, &mut e, ConfigFieldId::EditorKeymapPreset);
    assert_eq!(e.keymap_preset, EditorKeymapPreset::Vim);
    assert_eq!(
        r,
        ConfigActivation::Updated {
            status: StatusMessage::KeymapUpdated { preset: EditorKeymapPreset::Vim },
            save_editor_config: true,
        }
    );
    let r = activate_config_field(&mut p, &mut e, ConfigFieldId::EditorLocale);
    assert_eq!(e.locale, EditorLocale::ZhCn);
    assert_eq!(
        r,
        ConfigActivation::Updated {
            status: StatusMessage::LanguageUpdated { locale: EditorLocale::ZhCn },
            save_editor_config: true,
        }
    );
    assert_eq!(p, project());
}
