use vstd::prelude::*;

use crate::export::alacritty::{
    alacritty_template_file, alacritty_template_file_path, bundled_path, bundled_template_path,
    BUNDLED_TEMPLATE_PATH,
};
use crate::text::{owned, push_str};

pub mod alacritty;
pub mod managed_block;
pub mod template;

verus! {

broadcast use vstd::string::group_string_axioms;

/// One target that a theme is exported to.
#[derive(Debug, Clone, PartialEq, Eq)]
pub struct ExportProfile {
    pub name: String,
    pub enabled: bool,
    pub output_path: String,
    pub format: ExportFormat,
}

/// How an export is produced.
#[derive(Debug, Clone, PartialEq, Eq)]
pub enum ExportFormat {
    /// The legacy built-in Alacritty exporter.
    Alacritty,
    /// A template file (or a built-in template named by an `@bundled/...` path).
    Template { template_path: String },
}

/// Result of one export.
#[derive(Debug, Clone, PartialEq, Eq)]
pub struct ExportArtifact {
    pub profile_name: String,
    pub output_path: String,
}

/// Why an export failed.
#[derive(Debug, Clone, PartialEq, Eq)]
pub enum ExportError {
    MissingExportContextValue(String),
    MissingToken(String),
    SerializeError(String),
    Io(String),
    InvalidTemplate(String),
}

/// Model of an export format: `None` for the legacy exporter, else the template path.
pub open spec fn format_model(f: ExportFormat) -> Option<Seq<char>> {
    match f {
        ExportFormat::Alacritty => None,
        ExportFormat::Template { template_path } => Some(template_path@),
    }
}

/// The template path that a format resolves to.
pub open spec fn resolved_template(f: ExportFormat) -> Seq<char> {
    match f {
        ExportFormat::Alacritty => bundled_path(),
        ExportFormat::Template { template_path } => template_path@,
    }
}

/// The template path that a format has once normalized: the legacy exporter becomes the
/// Alacritty template file.
pub open spec fn normalized_template(f: ExportFormat) -> Seq<char> {
    match f {
        ExportFormat::Alacritty => alacritty_template_file(),
        ExportFormat::Template { template_path } => template_path@,
    }
}

impl ExportFormat {
    /// The same format, with the legacy exporter replaced by the Alacritty template file.
    pub fn normalize(self) -> (r: Self)
        ensures
            format_model(r) == Some(normalized_template(self)),
    {
        match self {
            ExportFormat::Alacritty => ExportFormat::Template {
                template_path: alacritty_template_file_path(),
            },
            template => template,
        }
    }

    /// Stable key of the format.
    pub fn key(&self) -> (r: &'static str)
        ensures
            r@ == (match self {
                ExportFormat::Alacritty => "alacritty"@,
                ExportFormat::Template { .. } => "template"@,
            }),
    {
        match self {
            ExportFormat::Alacritty => "alacritty",
            ExportFormat::Template { .. } => "template",
        }
    }
}

impl ExportProfile {
    /// The enabled Alacritty target, rendered from the bundled template.
    pub fn alacritty_default() -> (r: Self)
        ensures
            r.name@ == "Alacritty"@,
            r.enabled,
            r.output_path@ == "exports/alacritty-theme.toml"@,
            format_model(r.format) == Some(bundled_path()),
    {
        ExportProfile {
            name: owned("Alacritty"),
            enabled: true,
            output_path: owned("exports/alacritty-theme.toml"),
            format: ExportFormat::Template { template_path: bundled_template_path() },
        }
    }

    /// The disabled generic template target.
    pub fn template_default() -> (r: Self)
        ensures
            r.name@ == "Template"@,
            !r.enabled,
            r.output_path@ == "exports/theme-template.txt"@,
            format_model(r.format) == Some("templates/generic-theme.txt"@),
    {
        ExportProfile {
            name: owned("Template"),
            enabled: false,
            output_path: owned("exports/theme-template.txt"),
            format: ExportFormat::Template { template_path: owned("templates/generic-theme.txt") },
        }
    }

    /// Human-readable name of the profile's format.
    pub fn format_label(&self) -> (r: &'static str)
        ensures
            r@ == format_label_of(self.format),
    {
        match self.format {
            ExportFormat::Alacritty => "Alacritty",
            ExportFormat::Template { .. } => "Template",
        }
    }

    /// Stable key of the profile's format.
    pub fn format_key(&self) -> (r: &'static str)
        ensures
            r@ == (match self.format {
                ExportFormat::Alacritty => "alacritty"@,
                ExportFormat::Template { .. } => "template"@,
            }),
    {
        self.format.key()
    }

    /// A copy of the profile with its format normalized.
    pub fn normalize(&self) -> (r: Self)
        ensures
            r.name@ == self.name@,
            r.enabled == self.enabled,
            r.output_path@ == self.output_path@,
            format_model(r.format) == Some(normalized_template(self.format)),
    {
        let format = match &self.format {
            ExportFormat::Alacritty => ExportFormat::Template {
                template_path: alacritty_template_file_path(),
            },
            ExportFormat::Template { template_path } => ExportFormat::Template {
                template_path: template_path.clone(),
            },
        };
        ExportProfile {
            name: self.name.clone(),
            enabled: self.enabled,
            output_path: self.output_path.clone(),
            format,
        }
    }

    /// The template that the profile renders.
    pub fn template_path(&self) -> (r: &str)
        ensures
            r@ == resolved_template(self.format),
    {
        match &self.format {
            ExportFormat::Alacritty => BUNDLED_TEMPLATE_PATH,
            ExportFormat::Template { template_path } => template_path.as_str(),
        }
    }

    /// Points the profile at the template `path`.
    pub fn set_template_path(&mut self, path: String)
        ensures
            final(self).name == old(self).name,
            final(self).enabled == old(self).enabled,
            final(self).output_path == old(self).output_path,
            final(self).format == (ExportFormat::Template { template_path: path }),
    {
        self.format = ExportFormat::Template { template_path: path };
    }

    /// `[x] name (Format)` for an enabled profile, `[ ] name (Format)` otherwise.
    pub fn summary_label(&self) -> (r: String)
        ensures
            r@ == (if self.enabled {
                "[x]"@
            } else {
                "[ ]"@
            }) + " "@ + self.name@ + " ("@ + format_label_of(self.format) + ")"@,
    {
        let mut out = owned(if self.enabled {
            "[x]"
        } else {
            "[ ]"
        });
        push_str(&mut out, " ");
        push_str(&mut out, self.name.as_str());
        push_str(&mut out, " (");
        push_str(&mut out, self.format_label());
        push_str(&mut out, ")");
        out
    }
}

/// Human-readable name of a format.
pub open spec fn format_label_of(f: ExportFormat) -> Seq<char> {
    match f {
        ExportFormat::Alacritty => "Alacritty"@,
        ExportFormat::Template { .. } => "Template"@,
    }
}

impl Default for ExportProfile {
    fn default() -> (r: Self)
        ensures
            r.name@ == "Alacritty"@,
            r.enabled,
            r.output_path@ == "exports/alacritty-theme.toml"@,
            format_model(r.format) == Some(bundled_path()),
    {
        ExportProfile::alacritty_default()
    }
}

/// The targets of a new project: the Alacritty template (enabled) and the generic one.
pub open spec fn default_profiles(r: Seq<ExportProfile>) -> bool {
    &&& r.len() == 2
    &&& r[0].name@ == "Alacritty"@ && r[0].enabled && r[0].output_path@
        == "exports/alacritty-theme.toml"@ && format_model(r[0].format) == Some(bundled_path())
    &&& r[1].name@ == "Template"@ && !r[1].enabled && r[1].output_path@
        == "exports/theme-template.txt"@ && format_model(r[1].format) == Some(
        "templates/generic-theme.txt"@,
    )
}

/// The targets of a new project (see [`default_profiles`]).
pub fn default_export_profiles() -> (r: Vec<ExportProfile>)
    ensures
        default_profiles(r@),
{
    vec![ExportProfile::alacritty_default(), ExportProfile::template_default()]
}

/// A normalized format is a template format, and normalizing it again changes nothing.
pub proof fn law_normalize_is_idempotent(f: ExportFormat, g: ExportFormat, h: ExportFormat)
    requires
        format_model(g) == Some(normalized_template(f)),
        format_model(h) == Some(normalized_template(g)),
    ensures
        g is Template,
        format_model(h) == format_model(g),
        normalized_template(g) == normalized_template(f),
{
}

} // verus!
