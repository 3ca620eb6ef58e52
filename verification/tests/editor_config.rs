use themeprism::snapshot::{encode_keymap_preset, encode_locale};
use themeprism::editor_config::{EditorConfig, EditorKeymapPreset, EditorLocale, DEFAULT_PROJECT_PATH};

#[test]
fn editor_choice_enums_round_trip_through_stable_keys() {
    for preset in EditorKeymapPreset::all() {
        assert_eq!(EditorKeymapPreset::from_key(preset.key()), Some(preset));
    }

    for locale in EditorLocale::all() {
        assert_eq!(EditorLocale::from_key(locale.key()), Some(locale));
    }
}

#[test]
fn unknown_keys_are_rejected() {
    assert_eq!(EditorKeymapPreset::from_key("emacs"), None);
    assert_eq!(EditorKeymapPreset::from_key(""), None);
    assert_eq!(EditorLocale::from_key("fr-FR"), None);
}

#[test]
fn choices_cycle_through_both_values() {
    assert_eq!(EditorKeymapPreset::Standard.next(), EditorKeymapPreset::Vim);
    assert_eq!(EditorKeymapPreset::Vim.next(), EditorKeymapPreset::Standard);
    assert_eq!(EditorLocale::EnUs.next().next(), EditorLocale::EnUs);
}

#[test]
fn default_editor_config_points_at_the_default_project() {
    let config = EditorConfig::default();
    assert_eq!(config.project_path, DEFAULT_PROJECT_PATH.to_string());
    assert_eq!(EditorKeymapPreset::default(), EditorKeymapPreset::Standard);
    assert_eq!(EditorLocale::default(), EditorLocale::EnUs);
    assert_eq!(EditorLocale::ZhCn.language_tag(), "zh-CN");
}

#[test]
fn snapshot_encodes_choices_by_their_keys() {
    assert_eq!(encode_keymap_preset(EditorKeymapPreset::Vim), "vim");
    assert_eq!(encode_keymap_preset(EditorKeymapPreset::Standard), "standard");
    assert_eq!(encode_locale(EditorLocale::ZhCn), "zh_cn");
    assert_eq!(
        EditorLocale::from_key(&encode_locale(EditorLocale::EnUs)),
        Some(EditorLocale::EnUs)
    );
}
