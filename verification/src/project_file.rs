use vstd::prelude::*;

use crate::export::alacritty::bundled_path;
use crate::export::{default_export_profiles, format_model, normalized_template, ExportProfile};

verus! {

/// Why a project file could not be read or written.
#[derive(Debug, Clone, PartialEq, Eq)]
pub enum ProjectError {
    Io(String),
    Parse(String),
    InvalidData(String),
}

/// The version of the project file format that is read and written.
pub const CURRENT_PROJECT_VERSION: u32 = 1;

/// Model of an export target: name, switch, output path and template (`None` for the
/// legacy exporter).
pub open spec fn profile_view(p: ExportProfile) -> (Seq<char>, bool, Seq<char>, Option<Seq<char>>) {
    (p.name@, p.enabled, p.output_path@, format_model(p.format))
}

/// Model of a target once normalized: the legacy exporter becomes the Alacritty template
/// file.
pub open spec fn normalized_view(p: ExportProfile) -> (Seq<char>, bool, Seq<char>, Option<Seq<char>>) {
    (p.name@, p.enabled, p.output_path@, Some(normalized_template(p.format)))
}

/// The targets `profiles`, each normalized, as a project file stores them.
pub fn normalized_profiles(profiles: &Vec<ExportProfile>) -> (r: Vec<ExportProfile>)
    ensures
        r@.len() == profiles@.len(),
        forall|i: int| 0 <= i < r@.len() ==> profile_view(#[trigger] r@[i]) == normalized_view(profiles@[i]),
{
    let mut out: Vec<ExportProfile> = Vec::new();
    let mut i: usize = 0;
    while i < profiles.len()
        invariant
            i <= profiles.len(),
            out@.len() == i,
            forall|j: int| 0 <= j < i ==> profile_view(#[trigger] out@[j]) == normalized_view(profiles@[j]),
        decreases profiles.len() - i,
    {
        out.push(profiles[i].normalize());
        i = i + 1;
    }
    out
}

/// The targets of a loaded project: the listed targets when there are any, else the single
/// target of the older file layout, else the default targets; all of them normalized.
pub fn loaded_export_profiles(exports: &Vec<ExportProfile>, legacy: &Option<ExportProfile>) -> (r: Vec<ExportProfile>)
    ensures
        exports@.len() > 0 ==> r@.len() == exports@.len() && forall|i: int|
            0 <= i < r@.len() ==> profile_view(#[trigger] r@[i]) == normalized_view(exports@[i]),
        exports@.len() == 0 && legacy is Some ==> r@.len() == 1 && profile_view(r@[0])
            == normalized_view(legacy->0),
        exports@.len() == 0 && legacy is None ==> r@.len() == 2 && profile_view(r@[0]) == (
            "Alacritty"@,
            true,
            "exports/alacritty-theme.toml"@,
            Some(bundled_path()),
        ) && profile_view(r@[1]) == (
            "Template"@,
            false,
            "exports/theme-template.txt"@,
            Some("templates/generic-theme.txt"@),
        ),
{
    if exports.len() > 0 {
        normalized_profiles(exports)
    } else {
        match legacy {
            Some(profile) => vec![profile.normalize()],
            None => default_export_profiles(),
        }
    }
}

} // verus!
