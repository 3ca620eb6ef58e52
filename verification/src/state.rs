use vstd::prelude::*;

use crate::editor_config::{EditorConfig, EditorKeymapPreset, EditorLocale};
use crate::export::ExportProfile;

verus! {

/// The fields of the configuration dialog.
#[derive(Debug, Clone, Copy, PartialEq, Eq, Structural)]
pub enum ConfigFieldId {
    ProjectName,
    ExportEnabled(usize),
    ExportOutputPath(usize),
    ExportTemplatePath(usize),
    EditorProjectPath,
    EditorKeymapPreset,
    EditorLocale,
}

impl ConfigFieldId {
    /// Whether the field is edited by typing text (the others toggle or cycle).
    pub fn supports_text_input(self) -> (r: bool)
        ensures
            r == (self is ProjectName || self is ExportOutputPath || self is ExportTemplatePath
                || self is EditorProjectPath),
    {
        match self {
            ConfigFieldId::ProjectName
            | ConfigFieldId::ExportOutputPath(_)
            | ConfigFieldId::ExportTemplatePath(_)
            | ConfigFieldId::EditorProjectPath => true,
            _ => false,
        }
    }
}

/// Which field of the configuration dialog is selected.
#[derive(Debug, Clone, Copy, PartialEq, Eq, Structural)]
pub struct ConfigModalState {
    pub selected_field: usize,
}

/// The query and selected row of the command palette.
#[derive(Debug, Clone, PartialEq, Eq)]
pub struct CommandPaletteState {
    pub query: String,
    pub selected: usize,
}

/// The project being edited: its name and its export targets.
#[derive(Debug, Clone, PartialEq, Eq)]
pub struct ProjectState {
    pub name: String,
    pub export_profiles: Vec<ExportProfile>,
}

/// The editor's own settings: where the project file is, the keymap and the language.
#[derive(Debug, Clone, PartialEq, Eq)]
pub struct EditorState {
    pub project_path: String,
    pub keymap_preset: EditorKeymapPreset,
    pub locale: EditorLocale,
}

impl EditorState {
    /// The settings as the editor configuration file stores them.
    pub fn editor_config(&self) -> (r: EditorConfig)
        ensures
            r.project_path@ == self.project_path@,
            r.keymap_preset == self.keymap_preset,
            r.locale == self.locale,
    {
        EditorConfig {
            project_path: self.project_path.clone(),
            keymap_preset: self.keymap_preset,
            locale: self.locale,
        }
    }

    /// The language of the user interface.
    pub fn locale(&self) -> (r: EditorLocale)
        ensures
            r == self.locale,
    {
        self.locale
    }
}

} // verus!
