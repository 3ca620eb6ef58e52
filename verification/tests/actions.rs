use themeprism::actions::{
    activate_shortcut_label, adjust_value_shortcut_label, binding_label, bindings_for,
    matches_bound_action, move_selection_shortcut_label, switch_tabs_shortcut_label,
    BoundAction, KeyBinding, KeyCode, KeyInput,
};
use themeprism::actions::{menu_bar_layout, shortcut_help_layout, ActionId};
use themeprism::editor_config::EditorKeymapPreset;
use themeprism::i18n::UiText;

fn key(code: KeyCode) -> KeyInput {
    KeyInput {
        code,
        control: false,
        alt: false,
        super_key: false,
    }
}

#[test]
fn vim_adds_letter_keys_to_standard_arrows() {
    assert_eq!(
        bindings_for(EditorKeymapPreset::Standard, BoundAction::MoveUp),
        vec![KeyBinding::Up]
    );
    assert_eq!(
        bindings_for(EditorKeymapPreset::Vim, BoundAction::MoveUp),
        vec![KeyBinding::Up, KeyBinding::Char('k')]
    );
    assert!(matches_bound_action(
        EditorKeymapPreset::Vim,
        BoundAction::MoveUp,
        &key(KeyCode::Char('k'))
    ));
    assert!(!matches_bound_action(
        EditorKeymapPreset::Standard,
        BoundAction::MoveUp,
        &key(KeyCode::Char('k'))
    ));
    assert!(matches_bound_action(
        EditorKeymapPreset::Standard,
        BoundAction::MoveUp,
        &key(KeyCode::Up)
    ));
}

#[test]
fn control_bindings_need_the_control_modifier() {
    let mut press = key(KeyCode::Char('g'));
    assert!(!matches_bound_action(
        EditorKeymapPreset::Standard,
        BoundAction::ReleasePreviewCapture,
        &press
    ));
    press.control = true;
    assert!(matches_bound_action(
        EditorKeymapPreset::Standard,
        BoundAction::ReleasePreviewCapture,
        &press
    ));
}

#[test]
fn shortcut_labels_join_bindings() {
    assert_eq!(
        binding_label(EditorKeymapPreset::Vim, BoundAction::MoveUp),
        "↑/k"
    );
    assert_eq!(
        binding_label(EditorKeymapPreset::Standard, BoundAction::Quit),
        "q"
    );
    assert_eq!(switch_tabs_shortcut_label(EditorKeymapPreset::Standard), "[/]");
    assert_eq!(switch_tabs_shortcut_label(EditorKeymapPreset::Vim), "[/]");
    assert_eq!(move_selection_shortcut_label(EditorKeymapPreset::Vim), "↑↓/jk");
    assert_eq!(adjust_value_shortcut_label(EditorKeymapPreset::Standard), "←→");
    assert_eq!(activate_shortcut_label(EditorKeymapPreset::Vim), "Enter/i");
}

#[test]
fn shortcut_help_lists_sections_with_preset_shortcuts() {
    let sections = shortcut_help_layout(EditorKeymapPreset::Vim);
    assert_eq!(sections.len(), 5);
    assert_eq!(sections[0].title, UiText::HelpSectionGlobal);
    assert_eq!(sections[0].entries.len(), 7);
    assert_eq!(sections[0].entries[0].shortcut, "?");
    assert_eq!(sections[0].entries[6].shortcut, "q");
    assert_eq!(sections[1].entries[0].shortcut, "[/]");
    assert_eq!(sections[1].entries[1].shortcut, "1-9");
    assert_eq!(sections[1].entries[2].shortcut, "↑↓/jk");
    assert_eq!(sections[2].entries[2].shortcut, "Ctrl+G");
    assert_eq!(sections[4].title, UiText::KeymapPresetTitle);
    assert_eq!(sections[4].entries[0].shortcut, "arrows + hjkl + i");
    assert_eq!(sections[4].entries[0].label, UiText::KeymapVimLabel);
    let standard = shortcut_help_layout(EditorKeymapPreset::Standard);
    assert_eq!(standard[1].entries[4].shortcut, "Enter");
}

#[test]
fn menu_bar_lists_tabs_panels_edit_help_and_config() {
    let menu = menu_bar_layout(EditorKeymapPreset::Vim);
    let ids: Vec<ActionId> = menu.iter().map(|item| item.id).collect();
    assert_eq!(
        ids,
        vec![
            ActionId::SwitchTabs,
            ActionId::FocusPanels,
            ActionId::Activate,
            ActionId::OpenHelp,
            ActionId::OpenConfig
        ]
    );
    assert_eq!(menu[0].shortcut, "[/]");
    assert_eq!(menu[2].shortcut, "Enter/i");
    assert_eq!(menu[3].shortcut, "?");
    assert_eq!(menu[4].shortcut, "c");
    assert_eq!(menu[4].label, UiText::MenuConfig);
}

#[test]
fn preview_help_mentions_tabs_and_body_scopes() {
    let sections = shortcut_help_layout(EditorKeymapPreset::Standard);
    let preview = &sections[2];

    assert_eq!(preview.title, UiText::HelpSectionPreview);
    assert_eq!(preview.entries[0].label, UiText::HelpPreviewModeLabel);
    assert_eq!(preview.entries[0].description, UiText::HelpPreviewModeDesc);
    assert_eq!(preview.entries[1].label, UiText::HelpPreviewCaptureLabel);
    assert_eq!(preview.entries[1].description, UiText::HelpPreviewCaptureDesc);
}
