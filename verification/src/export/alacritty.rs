use vstd::prelude::*;

use crate::text::owned;

verus! {

/// Template path that names the built-in Alacritty template.
pub const BUNDLED_TEMPLATE_PATH: &'static str = "@bundled/alacritty";

/// Template path that names the built-in generic template.
pub const GENERIC_TEMPLATE_PATH: &'static str = "@bundled/generic-theme";

/// Where Alacritty reads its configuration by default.
pub const DEFAULT_ALACRITTY_CONFIG_PATH: &'static str = "~/.config/alacritty/alacritty.toml";

/// The template file that a legacy Alacritty target becomes when it is normalized.
pub const ALACRITTY_TEMPLATE_FILE: &'static str = "templates/alacritty.toml";

/// The template file that a legacy Alacritty target becomes when it is normalized.
pub open spec fn alacritty_template_file() -> Seq<char> {
    "templates/alacritty.toml"@
}

/// The path of the built-in Alacritty template.
pub open spec fn bundled_path() -> Seq<char> {
    "@bundled/alacritty"@
}

/// The path of the built-in generic template.
pub open spec fn generic_path() -> Seq<char> {
    "@bundled/generic-theme"@
}

/// The path that names the built-in Alacritty template.
pub fn bundled_template_path() -> (r: String)
    ensures
        r@ == bundled_path(),
{
    owned(BUNDLED_TEMPLATE_PATH)
}

/// The template file that a legacy Alacritty target becomes when it is normalized.
pub fn alacritty_template_file_path() -> (r: String)
    ensures
        r@ == alacritty_template_file(),
{
    owned(ALACRITTY_TEMPLATE_FILE)
}

/// The path that names the built-in generic template.
pub fn generic_template_path() -> (r: String)
    ensures
        r@ == generic_path(),
{
    owned(GENERIC_TEMPLATE_PATH)
}

/// Where an Alacritty export goes by default.
pub fn default_alacritty_output_path() -> (r: String)
    ensures
        r@ == "~/.config/alacritty/alacritty.toml"@,
{
    owned(DEFAULT_ALACRITTY_CONFIG_PATH)
}

/// Whether two paths are equal as `std::path::Path` compares them: component by component,
/// so that repeated separators, inner `.` components and a trailing separator do not count.
pub uninterp spec fn same_path(a: Seq<char>, b: Seq<char>) -> bool;

/// Compares two paths with `std::path::Path`'s `==`. Trusted: the result is the named
/// comparison of the two texts, and a path is equal to itself; how components are formed is
/// left to `std::path::Path::components`.
#[verifier::external_body]
fn paths_equal(a: &str, b: &str) -> (r: bool)
    ensures
        r == same_path(a@, b@),
        a@ == b@ ==> r,
{
    std::path::Path::new(a) == std::path::Path::new(b)
}

/// `path` itself when it names a built-in template, else `None`.
pub fn resolve_bundled_template_path(path: &str) -> (r: Option<String>)
    ensures
        r is Some <==> (same_path(path@, bundled_path()) || same_path(path@, generic_path())),
        r matches Some(p) ==> p@ == path@,
{
    if paths_equal(path, BUNDLED_TEMPLATE_PATH) || paths_equal(path, GENERIC_TEMPLATE_PATH) {
        Some(owned(path))
    } else {
        None
    }
}

} // verus!
