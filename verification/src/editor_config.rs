use vstd::prelude::*;

use crate::i18n::UiText;
use crate::text::{owned, str_eq};

verus! {

broadcast use vstd::string::group_string_axioms;

/// Where the project file lives unless the editor configuration says otherwise.
pub const DEFAULT_PROJECT_PATH: &'static str = "projects/themeprism-project.toml";

/// Key bindings that the editor offers.
#[derive(Debug, Clone, Copy, PartialEq, Eq, Hash, Structural)]
pub enum EditorKeymapPreset {
    Standard,
    Vim,
}

/// Languages of the user interface.
#[derive(Debug, Clone, Copy, PartialEq, Eq, Hash, Structural)]
pub enum EditorLocale {
    EnUs,
    ZhCn,
}

/// Stable key of a keymap preset.
pub open spec fn preset_key(p: EditorKeymapPreset) -> Seq<char> {
    match p {
        EditorKeymapPreset::Standard => "standard"@,
        EditorKeymapPreset::Vim => "vim"@,
    }
}

/// The keymap preset with stable key `raw`.
pub open spec fn preset_from_key(raw: Seq<char>) -> Option<EditorKeymapPreset> {
    if raw == "standard"@ {
        Some(EditorKeymapPreset::Standard)
    } else if raw == "vim"@ {
        Some(EditorKeymapPreset::Vim)
    } else {
        None
    }
}

/// Stable key of a locale.
pub open spec fn locale_key(l: EditorLocale) -> Seq<char> {
    match l {
        EditorLocale::EnUs => "en_us"@,
        EditorLocale::ZhCn => "zh_cn"@,
    }
}

/// The locale with stable key `raw`.
pub open spec fn locale_from_key(raw: Seq<char>) -> Option<EditorLocale> {
    if raw == "en_us"@ {
        Some(EditorLocale::EnUs)
    } else if raw == "zh_cn"@ {
        Some(EditorLocale::ZhCn)
    } else {
        None
    }
}

impl EditorKeymapPreset {
    /// The text key of the preset's name.
    pub fn label_text(self) -> (r: UiText)
        ensures
            r == match self {
                EditorKeymapPreset::Standard => UiText::KeymapStandardLabel,
                EditorKeymapPreset::Vim => UiText::KeymapVimLabel,
            },
    {
        match self {
            EditorKeymapPreset::Standard => UiText::KeymapStandardLabel,
            EditorKeymapPreset::Vim => UiText::KeymapVimLabel,
        }
    }

    /// Every preset, in display order.
    pub fn all() -> (r: [EditorKeymapPreset; 2])
        ensures
            r@ == seq![EditorKeymapPreset::Standard, EditorKeymapPreset::Vim],
    {
        [EditorKeymapPreset::Standard, EditorKeymapPreset::Vim]
    }

    /// Stable key of the preset, as stored in the configuration file.
    pub fn key(self) -> (r: &'static str)
        ensures
            r@ == preset_key(self),
    {
        match self {
            EditorKeymapPreset::Standard => "standard",
            EditorKeymapPreset::Vim => "vim",
        }
    }

    /// The preset whose key is `raw`.
    pub fn from_key(raw: &str) -> (r: Option<Self>)
        ensures
            r == preset_from_key(raw@),
    {
        if str_eq(raw, "standard") {
            Some(EditorKeymapPreset::Standard)
        } else if str_eq(raw, "vim") {
            Some(EditorKeymapPreset::Vim)
        } else {
            None
        }
    }

    /// The other preset.
    pub fn next(self) -> (r: Self)
        ensures
            r == spec_next_preset(self),
    {
        match self {
            EditorKeymapPreset::Standard => EditorKeymapPreset::Vim,
            EditorKeymapPreset::Vim => EditorKeymapPreset::Standard,
        }
    }
}

impl Default for EditorKeymapPreset {
    fn default() -> (r: Self)
        ensures
            r == EditorKeymapPreset::Standard,
    {
        EditorKeymapPreset::Standard
    }
}

impl EditorLocale {
    /// The text key of the language's name.
    pub fn label_text(self) -> (r: UiText)
        ensures
            r == match self {
                EditorLocale::EnUs => UiText::LocaleEnglish,
                EditorLocale::ZhCn => UiText::LocaleChineseSimplified,
            },
    {
        match self {
            EditorLocale::EnUs => UiText::LocaleEnglish,
            EditorLocale::ZhCn => UiText::LocaleChineseSimplified,
        }
    }

    /// Every locale, in display order.
    pub fn all() -> (r: [EditorLocale; 2])
        ensures
            r@ == seq![EditorLocale::EnUs, EditorLocale::ZhCn],
    {
        [EditorLocale::EnUs, EditorLocale::ZhCn]
    }

    /// Stable key of the locale, as stored in the configuration file.
    pub fn key(self) -> (r: &'static str)
        ensures
            r@ == locale_key(self),
    {
        match self {
            EditorLocale::EnUs => "en_us",
            EditorLocale::ZhCn => "zh_cn",
        }
    }

    /// The locale whose key is `raw`.
    pub fn from_key(raw: &str) -> (r: Option<Self>)
        ensures
            r == locale_from_key(raw@),
    {
        if str_eq(raw, "en_us") {
            Some(EditorLocale::EnUs)
        } else if str_eq(raw, "zh_cn") {
            Some(EditorLocale::ZhCn)
        } else {
            None
        }
    }

    /// The other locale.
    pub fn next(self) -> (r: Self)
        ensures
            r == spec_next_locale(self),
    {
        match self {
            EditorLocale::EnUs => EditorLocale::ZhCn,
            EditorLocale::ZhCn => EditorLocale::EnUs,
        }
    }

    /// The BCP 47 tag of the locale.
    pub fn language_tag(self) -> (r: &'static str)
        ensures
            r@ == (match self {
                EditorLocale::EnUs => "en-US"@,
                EditorLocale::ZhCn => "zh-CN"@,
            }),
    {
        match self {
            EditorLocale::EnUs => "en-US",
            EditorLocale::ZhCn => "zh-CN",
        }
    }
}

impl Default for EditorLocale {
    fn default() -> (r: Self)
        ensures
            r == EditorLocale::EnUs,
    {
        EditorLocale::EnUs
    }
}

/// Settings of this editor installation (not of a project).
#[derive(Debug, Clone, PartialEq, Eq)]
pub struct EditorConfig {
    pub project_path: String,
    pub keymap_preset: EditorKeymapPreset,
    pub locale: EditorLocale,
}

impl Default for EditorConfig {
    fn default() -> (r: Self)
        ensures
            r.project_path@ == "projects/themeprism-project.toml"@,
            r.keymap_preset == EditorKeymapPreset::Standard,
            r.locale == EditorLocale::EnUs,
    {
        EditorConfig {
            project_path: owned(DEFAULT_PROJECT_PATH),
            keymap_preset: EditorKeymapPreset::Standard,
            locale: EditorLocale::EnUs,
        }
    }
}

/// Why the editor configuration could not be read or written.
#[derive(Debug, Clone, PartialEq, Eq)]
pub enum EditorConfigError {
    UnsupportedPlatform,
    Io(String),
    Parse(String),
}

/// Every keymap preset is found again from its key, and a key names only its own preset.
pub proof fn law_preset_key_round_trip(p: EditorKeymapPreset, raw: Seq<char>)
    ensures
        preset_from_key(preset_key(p)) == Some(p),
        preset_from_key(raw) == Some(p) ==> raw == preset_key(p),
{
    reveal_strlit("standard");
    reveal_strlit("vim");
    assert("standard"@.len() == 8);
    assert("vim"@.len() == 3);
}

/// Every locale is found again from its key, and a key names only its own locale.
pub proof fn law_locale_key_round_trip(l: EditorLocale, raw: Seq<char>)
    ensures
        locale_from_key(locale_key(l)) == Some(l),
        locale_from_key(raw) == Some(l) ==> raw == locale_key(l),
{
    reveal_strlit("en_us");
    reveal_strlit("zh_cn");
    assert("en_us"@[0] == 'e');
    assert("zh_cn"@[0] == 'z');
}

/// Cycling twice through the two presets, or the two locales, returns to the start.
pub proof fn law_next_twice_is_identity(p: EditorKeymapPreset, l: EditorLocale)
    ensures
        spec_next_preset(spec_next_preset(p)) == p,
        spec_next_locale(spec_next_locale(l)) == l,
{
}

/// The preset after `p`.
pub open spec fn spec_next_preset(p: EditorKeymapPreset) -> EditorKeymapPreset {
    match p {
        EditorKeymapPreset::Standard => EditorKeymapPreset::Vim,
        EditorKeymapPreset::Vim => EditorKeymapPreset::Standard,
    }
}

/// The locale after `l`.
pub open spec fn spec_next_locale(l: EditorLocale) -> EditorLocale {
    match l {
        EditorLocale::EnUs => EditorLocale::ZhCn,
        EditorLocale::ZhCn => EditorLocale::EnUs,
    }
}

} // verus!
