use themeprism::export::managed_block::{
    managed_block_end_marker, managed_block_start_marker, patch_managed_block_contents,
};

#[test]
fn patch_managed_block_replaces_existing_managed_section_only() {
    let existing = format!(
        "live = true\n{}\nold = \"value\"\n{}\nother = 42\n",
        managed_block_start_marker(),
        managed_block_end_marker()
    );

    let patched = patch_managed_block_contents(&existing, "[colors]\nbackground = \"#000000\"");

    assert_eq!(
        patched,
        format!(
            "live = true\n{}\n[colors]\nbackground = \"#000000\"\n{}\nother = 42\n",
            managed_block_start_marker(),
            managed_block_end_marker()
        )
    );
}

#[test]
fn patch_managed_block_appends_section_when_markers_are_missing() {
    let patched =
        patch_managed_block_contents("live = true\n", "[colors]\nforeground = \"#ffffff\"");

    assert_eq!(
        patched,
        format!(
            "live = true\n\n{}\n[colors]\nforeground = \"#ffffff\"\n{}\n",
            managed_block_start_marker(),
            managed_block_end_marker()
        )
    );
}

#[test]
fn patch_managed_block_initializes_missing_files_with_managed_section() {
    let patched = patch_managed_block_contents("", "[colors]\nforeground = \"#ffffff\"");

    assert_eq!(
        patched,
        format!(
            "{}\n[colors]\nforeground = \"#ffffff\"\n{}\n",
            managed_block_start_marker(),
            managed_block_end_marker()
        )
    );
}

#[test]
fn markers_have_the_documented_text() {
    assert_eq!(managed_block_start_marker(), "# theme-generator:start");
    assert_eq!(managed_block_end_marker(), "# theme-generator:end");
}

#[test]
fn patch_keeps_crlf_line_endings_of_existing_files() {
    let existing = format!(
        "a = 1\r\n{}\r\nold\r\n{}\r\nb = 2\r\n",
        managed_block_start_marker(),
        managed_block_end_marker()
    );
    let patched = patch_managed_block_contents(&existing, "new\n\n");
    assert_eq!(
        patched,
        format!(
            "a = 1\r\n{}\r\nnew\r\n{}\r\nb = 2\r\n",
            managed_block_start_marker(),
            managed_block_end_marker()
        )
    );
}

#[test]
fn start_marker_without_end_marker_appends_a_new_block() {
    let existing = format!("x\n{}\ny\n", managed_block_start_marker());
    let patched = patch_managed_block_contents(&existing, "z");
    assert_eq!(
        patched,
        format!(
            "x\n{}\ny\n\n{}\nz\n{}\n",
            managed_block_start_marker(),
            managed_block_start_marker(),
            managed_block_end_marker()
        )
    );
}
