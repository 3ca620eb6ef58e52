use themeprism::snapshot::{export_outputs_summary, export_targets_summary, OutputSummary, TargetSummary};
use themeprism::export::{default_export_profiles, ExportFormat, ExportProfile};
use themeprism::project_file::{loaded_export_profiles, normalized_profiles, CURRENT_PROJECT_VERSION};

fn legacy_alacritty() -> ExportProfile {
    ExportProfile {
        name: "Alacritty".to_string(),
        enabled: true,
        output_path: "exports/alacritty-theme.toml".to_string(),
        format: ExportFormat::Alacritty,
    }
}

fn bundled_alacritty_profile() -> ExportProfile {
    ExportProfile {
        name: "Alacritty".to_string(),
        enabled: true,
        output_path: "exports/alacritty-theme.toml".to_string(),
        format: ExportFormat::Template {
            template_path: "templates/alacritty.toml".to_string(),
        },
    }
}

#[test]
fn legacy_alacritty_targets_load_as_template_targets() {
    let loaded = loaded_export_profiles(&vec![legacy_alacritty()], &None);
    assert_eq!(loaded, vec![bundled_alacritty_profile()]);
}

#[test]
fn template_targets_load_unchanged() {
    let listed = vec![
        bundled_alacritty_profile(),
        ExportProfile {
            name: "Custom Template".to_string(),
            enabled: true,
            output_path: "exports/custom.conf".to_string(),
            format: ExportFormat::Template {
                template_path: "templates/custom.txt".to_string(),
            },
        },
    ];
    assert_eq!(loaded_export_profiles(&normalized_profiles(&listed), &None), listed);
}

#[test]
fn missing_targets_load_as_the_defaults() {
    assert_eq!(loaded_export_profiles(&Vec::new(), &None), default_export_profiles());
}

#[test]
fn the_single_target_of_older_files_is_kept() {
    let loaded = loaded_export_profiles(&Vec::new(), &Some(legacy_alacritty()));
    assert_eq!(loaded, vec![legacy_alacritty().normalize()]);
}

#[test]
fn listed_targets_win_over_the_older_single_target() {
    let listed = default_export_profiles();
    let loaded = loaded_export_profiles(&listed, &Some(legacy_alacritty()));
    assert_eq!(loaded, listed);
}

#[test]
fn saved_targets_are_normalized() {
    let saved = normalized_profiles(&vec![legacy_alacritty(), ExportProfile::template_default()]);
    assert_eq!(saved[0], bundled_alacritty_profile());
    assert_eq!(saved[1], ExportProfile::template_default());
    assert_eq!(CURRENT_PROJECT_VERSION, 1);
}

#[test]
fn enabled_targets_are_summed_up_by_name_or_number() {
    let mut profiles = default_export_profiles();
    assert_eq!(
        export_targets_summary(&profiles),
        TargetSummary::One {
            name: "Alacritty".to_string()
        }
    );
    assert_eq!(
        export_outputs_summary(&profiles),
        OutputSummary::One {
            path: "exports/alacritty-theme.toml".to_string()
        }
    );
    profiles[1].enabled = true;
    assert_eq!(
        export_targets_summary(&profiles),
        TargetSummary::Few {
            count: 2,
            names: "Alacritty, Template".to_string()
        }
    );
    assert_eq!(export_outputs_summary(&profiles), OutputSummary::Many { count: 2 });
    profiles.push(ExportProfile::default());
    profiles.push(ExportProfile::template_default());
    profiles[3].enabled = true;
    assert_eq!(export_targets_summary(&profiles), TargetSummary::Many { count: 4 });
    for p in profiles.iter_mut() {
        p.enabled = false;
    }
    assert_eq!(export_targets_summary(&profiles), TargetSummary::NoneEnabled);
    assert_eq!(export_outputs_summary(&profiles), OutputSummary::NoneEnabled);
}
