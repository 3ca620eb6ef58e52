use themeprism::export::alacritty::{
    bundled_template_path, default_alacritty_output_path, generic_template_path,
    resolve_bundled_template_path,
};
use themeprism::export::{default_export_profiles, ExportFormat, ExportProfile};

#[test]
fn default_profiles_are_template_backed() {
    let profiles = default_export_profiles();
    assert_eq!(profiles.len(), 2);
    assert_eq!(profiles[0].name, "Alacritty");
    assert!(profiles[0].enabled);
    assert_eq!(profiles[0].output_path, "exports/alacritty-theme.toml");
    assert_eq!(
        profiles[0].format,
        ExportFormat::Template {
            template_path: bundled_template_path()
        }
    );
    assert_eq!(profiles[1].name, "Template");
    assert!(!profiles[1].enabled);
    assert_eq!(profiles[1].template_path(), "templates/generic-theme.txt");
    assert_eq!(generic_template_path(), "@bundled/generic-theme");
}

#[test]
fn legacy_alacritty_profiles_normalize_to_the_alacritty_template_file() {
    let legacy = ExportProfile {
        name: "Alacritty".to_string(),
        enabled: true,
        output_path: default_alacritty_output_path(),
        format: ExportFormat::Alacritty,
    };
    let normalized = legacy.normalize();
    assert_eq!(normalized.format, ExportFormat::Template {
        template_path: "templates/alacritty.toml".to_string()
    });
    assert_eq!(normalized.name, legacy.name);
    assert_eq!(normalized.output_path, legacy.output_path);
    assert_eq!(normalized.normalize(), normalized);
    assert_eq!(legacy.template_path(), bundled_template_path());
    assert_eq!(legacy.format_key(), "alacritty");
    assert_eq!(normalized.format_key(), "template");
}

#[test]
fn summary_label_shows_state_name_and_format() {
    let mut profile = ExportProfile::default();
    assert_eq!(profile.summary_label(), "[x] Alacritty (Template)");
    profile.enabled = false;
    profile.format = ExportFormat::Alacritty;
    assert_eq!(profile.summary_label(), "[ ] Alacritty (Alacritty)");
}

#[test]
fn bundled_paths_resolve_only_when_known() {
    assert_eq!(
        resolve_bundled_template_path(&bundled_template_path()),
        Some("@bundled/alacritty".to_string())
    );
    assert_eq!(
        resolve_bundled_template_path("@bundled/generic-theme"),
        Some("@bundled/generic-theme".to_string())
    );
    // Paths compare by components, so a trailing separator still names the template.
    assert_eq!(
        resolve_bundled_template_path("@bundled/alacritty/"),
        Some("@bundled/alacritty/".to_string())
    );
    assert_eq!(resolve_bundled_template_path("@bundled/other.toml"), None);
    assert_eq!(resolve_bundled_template_path("templates/alacritty.toml"), None);
}
