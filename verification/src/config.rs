use vstd::prelude::*;

use crate::editor_config::{spec_next_locale, spec_next_preset, EditorKeymapPreset, EditorLocale};
use crate::export::{ExportFormat, ExportProfile};
use crate::i18n::UiText;
use crate::state::{ConfigFieldId, ConfigModalState, EditorState, ProjectState};
use crate::text::{chars_of, string_from_range, trim, trim_bounds};
use crate::update::{held_index, step_fits, step_selection, stepped_index};
use crate::workspace::PanelId;

verus! {

broadcast use vstd::string::group_string_axioms;

/// A status line or error that editing the configuration reports, with its arguments.
/// Export targets are numbered from 0 here; messages show them from 1.
#[derive(Debug, Clone, PartialEq, Eq)]
pub enum StatusMessage {
    ProjectNameUpdated { name: String },
    ProjectFilePathUpdated { path: String },
    ExportOutputUpdated { name: String, path: String },
    ExportTemplateUpdated { name: String, path: String },
    ExportTargetEnabled { name: String },
    ExportTargetDisabled { name: String },
    MissingExportTarget { index: usize },
    ToggleExportTarget { index: usize },
    InputEmpty,
    UseToggleChoicePreference,
    ProjectNameEmpty,
    KeymapUpdated { preset: EditorKeymapPreset },
    LanguageUpdated { locale: EditorLocale },
}

/// Model of a status message: its kind, its text arguments and its target number.
pub open spec fn message_view(m: StatusMessage) -> (UiText, Seq<Seq<char>>, Option<usize>) {
    match m {
        StatusMessage::ProjectNameUpdated { name } => (UiText::StatusProjectNameUpdated, seq![name@], None),
        StatusMessage::ProjectFilePathUpdated { path } => (UiText::StatusProjectFilePathUpdated, seq![path@], None),
        StatusMessage::ExportOutputUpdated { name, path } => (UiText::StatusExportOutputUpdated, seq![name@, path@], None),
        StatusMessage::ExportTemplateUpdated { name, path } => (UiText::StatusExportTemplateUpdated, seq![name@, path@], None),
        StatusMessage::ExportTargetEnabled { name } => (UiText::StatusExportTargetEnabled, seq![name@], None),
        StatusMessage::ExportTargetDisabled { name } => (UiText::StatusExportTargetDisabled, seq![name@], None),
        StatusMessage::MissingExportTarget { index } => (UiText::StatusMissingExportTarget, Seq::empty(), Some(index)),
        StatusMessage::ToggleExportTarget { index } => (UiText::ErrorToggleExportTarget, Seq::empty(), Some(index)),
        StatusMessage::InputEmpty => (UiText::ErrorInputEmpty, Seq::empty(), None),
        StatusMessage::UseToggleChoicePreference => (UiText::ErrorUseToggleChoicePreference, Seq::empty(), None),
        StatusMessage::ProjectNameEmpty => (UiText::ErrorProjectNameEmpty, Seq::empty(), None),
        StatusMessage::KeymapUpdated { .. } => (UiText::StatusKeymapUpdated, Seq::empty(), None),
        StatusMessage::LanguageUpdated { .. } => (UiText::StatusLanguageUpdated, Seq::empty(), None),
    }
}

impl StatusMessage {
    /// The message that renders this status.
    pub fn key(&self) -> (r: UiText)
        ensures
            r == message_view(*self).0,
    {
        match self {
            StatusMessage::ProjectNameUpdated { .. } => UiText::StatusProjectNameUpdated,
            StatusMessage::ProjectFilePathUpdated { .. } => UiText::StatusProjectFilePathUpdated,
            StatusMessage::ExportOutputUpdated { .. } => UiText::StatusExportOutputUpdated,
            StatusMessage::ExportTemplateUpdated { .. } => UiText::StatusExportTemplateUpdated,
            StatusMessage::ExportTargetEnabled { .. } => UiText::StatusExportTargetEnabled,
            StatusMessage::ExportTargetDisabled { .. } => UiText::StatusExportTargetDisabled,
            StatusMessage::MissingExportTarget { .. } => UiText::StatusMissingExportTarget,
            StatusMessage::ToggleExportTarget { .. } => UiText::ErrorToggleExportTarget,
            StatusMessage::InputEmpty => UiText::ErrorInputEmpty,
            StatusMessage::UseToggleChoicePreference => UiText::ErrorUseToggleChoicePreference,
            StatusMessage::ProjectNameEmpty => UiText::ErrorProjectNameEmpty,
            StatusMessage::KeymapUpdated { .. } => UiText::StatusKeymapUpdated,
            StatusMessage::LanguageUpdated { .. } => UiText::StatusLanguageUpdated,
        }
    }
}

/// The fields of the configuration dialog for a project with `n` export targets: the
/// project name, three fields per target, then the editor's settings.
pub open spec fn config_field_list(n: nat) -> Seq<ConfigFieldId> {
    seq![ConfigFieldId::ProjectName] + Seq::new(
        3 * n,
        |i: int|
            if i % 3 == 0 {
                ConfigFieldId::ExportEnabled((i / 3) as usize)
            } else if i % 3 == 1 {
                ConfigFieldId::ExportOutputPath((i / 3) as usize)
            } else {
                ConfigFieldId::ExportTemplatePath((i / 3) as usize)
            },
    ) + seq![
        ConfigFieldId::EditorProjectPath,
        ConfigFieldId::EditorKeymapPreset,
        ConfigFieldId::EditorLocale,
    ]
}

/// The fields of the configuration dialog, in order.
pub fn config_fields(project: &ProjectState) -> (r: Vec<ConfigFieldId>)
    requires
        3 * project.export_profiles.len() + 4 <= usize::MAX,
    ensures
        r@ == config_field_list(project.export_profiles@.len()),
{
    let n = project.export_profiles.len();
    let mut fields: Vec<ConfigFieldId> = vec![ConfigFieldId::ProjectName];
    let ghost mid: Seq<ConfigFieldId> = Seq::new(
        3 * n as nat,
        |i: int|
            if i % 3 == 0 {
                ConfigFieldId::ExportEnabled((i / 3) as usize)
            } else if i % 3 == 1 {
                ConfigFieldId::ExportOutputPath((i / 3) as usize)
            } else {
                ConfigFieldId::ExportTemplatePath((i / 3) as usize)
            },
    );
    let mut index: usize = 0;
    while index < n
        invariant
            index <= n,
            n == project.export_profiles.len(),
            3 * n + 4 <= usize::MAX,
            mid.len() == 3 * n,
            forall|i: int|
                0 <= i < 3 * n ==> #[trigger] mid[i] == (if i % 3 == 0 {
                    ConfigFieldId::ExportEnabled((i / 3) as usize)
                } else if i % 3 == 1 {
                    ConfigFieldId::ExportOutputPath((i / 3) as usize)
                } else {
                    ConfigFieldId::ExportTemplatePath((i / 3) as usize)
                }),
            fields@ == seq![ConfigFieldId::ProjectName] + mid.take(3 * index),
        decreases n - index,
    {
        fields.push(ConfigFieldId::ExportEnabled(index));
        fields.push(ConfigFieldId::ExportOutputPath(index));
        fields.push(ConfigFieldId::ExportTemplatePath(index));
        proof {
            let k = 3 * index as int;
            assert(k % 3 == 0 && k / 3 == index) by (nonlinear_arith)
                requires
                    k == 3 * index,
            ;
            assert((k + 1) % 3 == 1 && (k + 1) / 3 == index) by (nonlinear_arith)
                requires
                    k == 3 * index,
            ;
            assert((k + 2) % 3 == 2 && (k + 2) / 3 == index) by (nonlinear_arith)
                requires
                    k == 3 * index,
            ;
            assert(mid[k] == ConfigFieldId::ExportEnabled(index));
            assert(mid[k + 1] == ConfigFieldId::ExportOutputPath(index));
            assert(mid[k + 2] == ConfigFieldId::ExportTemplatePath(index));
            assert(mid.take(k + 3) =~= mid.take(k).push(mid[k]).push(mid[k + 1]).push(mid[k + 2]));
            assert(fields@ =~= seq![ConfigFieldId::ProjectName] + mid.take(3 * (index + 1)));
        }
        index = index + 1;
    }
    fields.push(ConfigFieldId::EditorProjectPath);
    fields.push(ConfigFieldId::EditorKeymapPreset);
    fields.push(ConfigFieldId::EditorLocale);
    proof {
        assert(mid.take(3 * n as int) =~= mid);
        assert(fields@ =~= config_field_list(n as nat));
    }
    fields
}

/// `new` holds the profiles of `old`, but for the one at `i`.
pub open spec fn same_profiles_except(old: Seq<ExportProfile>, new: Seq<ExportProfile>, i: int) -> bool {
    &&& new.len() == old.len()
    &&& forall|j: int| 0 <= j < old.len() && j != i ==> #[trigger] new[j] == old[j]
}

/// The result of editing field `field` with the (already trimmed, non-empty) text `v`, when
/// the field takes text: what the new settings hold and what is reported.
pub open spec fn text_edit_holds(
    old_project: ProjectState,
    old_editor: EditorState,
    new_project: ProjectState,
    new_editor: EditorState,
    field: ConfigFieldId,
    v: Seq<char>,
    r: Result<StatusMessage, StatusMessage>,
) -> bool {
    let unchanged = new_project == old_project && new_editor == old_editor;
    let n = old_project.export_profiles@.len();
    match field {
        ConfigFieldId::ProjectName => {
            &&& new_project.name@ == v
            &&& new_project.export_profiles == old_project.export_profiles
            &&& new_editor == old_editor
            &&& r matches Ok(m) && message_view(m) == (UiText::StatusProjectNameUpdated, seq![v], None::<usize>)
        },
        ConfigFieldId::EditorProjectPath => {
            &&& new_editor.project_path@ == v
            &&& new_editor.keymap_preset == old_editor.keymap_preset
            &&& new_editor.locale == old_editor.locale
            &&& new_project == old_project
            &&& r matches Ok(m) && message_view(m) == (UiText::StatusProjectFilePathUpdated, seq![v], None::<usize>)
        },
        ConfigFieldId::EditorKeymapPreset | ConfigFieldId::EditorLocale => {
            unchanged && r == Err::<StatusMessage, StatusMessage>(StatusMessage::UseToggleChoicePreference)
        },
        ConfigFieldId::ExportEnabled(i) => {
            unchanged && r == Err::<StatusMessage, StatusMessage>(StatusMessage::ToggleExportTarget { index: i })
        },
        ConfigFieldId::ExportOutputPath(i) => if i < n {
            let old_p = old_project.export_profiles@[i as int];
            let new_p = new_project.export_profiles@[i as int];
            &&& new_project.name == old_project.name
            &&& new_editor == old_editor
            &&& same_profiles_except(old_project.export_profiles@, new_project.export_profiles@, i as int)
            &&& new_p.name == old_p.name && new_p.enabled == old_p.enabled && new_p.format == old_p.format
            &&& new_p.output_path@ == v
            &&& r matches Ok(m) && message_view(m) == (UiText::StatusExportOutputUpdated, seq![old_p.name@, v], None::<usize>)
        } else {
            unchanged && r == Err::<StatusMessage, StatusMessage>(StatusMessage::MissingExportTarget { index: i })
        },
        ConfigFieldId::ExportTemplatePath(i) => if i < n {
            let old_p = old_project.export_profiles@[i as int];
            let new_p = new_project.export_profiles@[i as int];
            &&& new_project.name == old_project.name
            &&& new_editor == old_editor
            &&& same_profiles_except(old_project.export_profiles@, new_project.export_profiles@, i as int)
            &&& new_p.name == old_p.name && new_p.enabled == old_p.enabled && new_p.output_path == old_p.output_path
            &&& new_p.format matches ExportFormat::Template { template_path } && template_path@ == v
            &&& r matches Ok(m) && message_view(m) == (UiText::StatusExportTemplateUpdated, seq![old_p.name@, v], None::<usize>)
        } else {
            unchanged && r == Err::<StatusMessage, StatusMessage>(StatusMessage::MissingExportTarget { index: i })
        },
    }
}

/// Applies the text typed into a field of the configuration dialog. Surrounding whitespace
/// What typing `buffer` into `field` does: blank input is refused and changes nothing;
/// otherwise the trimmed text is applied as [`text_edit_holds`] says.
pub open spec fn config_input_holds(
    old_project: ProjectState,
    old_editor: EditorState,
    field: ConfigFieldId,
    buffer: Seq<char>,
    new_project: ProjectState,
    new_editor: EditorState,
    r: Result<StatusMessage, StatusMessage>,
) -> bool {
    if trim(buffer).len() == 0 {
        &&& new_project == old_project
        &&& new_editor == old_editor
        &&& r == Err::<StatusMessage, StatusMessage>(StatusMessage::InputEmpty)
    } else {
        text_edit_holds(old_project, old_editor, new_project, new_editor, field, trim(buffer), r)
    }
}

/// is dropped and empty text is refused; choices and switches are not edited by text.
pub fn apply_config_input(
    project: &mut ProjectState,
    editor: &mut EditorState,
    field: ConfigFieldId,
    buffer: &str,
) -> (r: Result<StatusMessage, StatusMessage>)
    ensures
        config_input_holds(*old(project), *old(editor), field, buffer@, *final(project), *final(editor), r),
{
    let chars = chars_of(buffer);
    let (lo, hi) = trim_bounds(&chars, 0, chars.len());
    assert(chars@.subrange(0, chars@.len() as int) =~= chars@);
    if lo == hi {
        return Err(StatusMessage::InputEmpty);
    }
    let value = string_from_range(&chars, lo, hi);
    match field {
        ConfigFieldId::ProjectName => {
            project.name = value;
            let name = project.name.clone();
            Ok(StatusMessage::ProjectNameUpdated { name })
        },
        ConfigFieldId::EditorProjectPath => {
            editor.project_path = value;
            let path = editor.project_path.clone();
            Ok(StatusMessage::ProjectFilePathUpdated { path })
        },
        ConfigFieldId::EditorKeymapPreset | ConfigFieldId::EditorLocale => {
            Err(StatusMessage::UseToggleChoicePreference)
        },
        ConfigFieldId::ExportOutputPath(index) => {
            if index >= project.export_profiles.len() {
                return Err(StatusMessage::MissingExportTarget { index });
            }
            let path = value.clone();
            let name = project.export_profiles[index].name.clone();
            project.export_profiles[index].output_path = value;
            Ok(StatusMessage::ExportOutputUpdated { name, path })
        },
        ConfigFieldId::ExportTemplatePath(index) => {
            if index >= project.export_profiles.len() {
                return Err(StatusMessage::MissingExportTarget { index });
            }
            let path = value.clone();
            let name = project.export_profiles[index].name.clone();
            project.export_profiles[index].set_template_path(value);
            Ok(StatusMessage::ExportTemplateUpdated { name, path })
        },
        ConfigFieldId::ExportEnabled(index) => Err(StatusMessage::ToggleExportTarget { index }),
    }
}

/// Renames the project to `name` without its surrounding whitespace; an empty name is
/// refused and leaves the project as it was.
pub fn set_project_name(project: &mut ProjectState, name: &str) -> (r: StatusMessage)
    ensures
        trim(name@).len() == 0 ==> *final(project) == *old(project) && r
            == StatusMessage::ProjectNameEmpty,
        trim(name@).len() > 0 ==> final(project).name@ == trim(name@),
        trim(name@).len() > 0 ==> final(project).export_profiles == old(project).export_profiles,
        trim(name@).len() > 0 ==> message_view(r) == (UiText::StatusProjectNameUpdated, seq![trim(name@)], None::<usize>),
{
    let chars = chars_of(name);
    let (lo, hi) = trim_bounds(&chars, 0, chars.len());
    assert(chars@.subrange(0, chars@.len() as int) =~= chars@);
    if lo == hi {
        return StatusMessage::ProjectNameEmpty;
    }
    project.name = string_from_range(&chars, lo, hi);
    StatusMessage::ProjectNameUpdated { name: project.name.clone() }
}

/// A missing export target is reported and the project is left as it was.
pub open spec fn missing_target_holds(old: ProjectState, new: ProjectState, index: usize, r: StatusMessage) -> bool {
    new == old && r == StatusMessage::MissingExportTarget { index }
}

/// Only export target `index` changed, to `p`; the project name stayed.
pub open spec fn target_replaced(old: ProjectState, new: ProjectState, index: usize, p: ExportProfile) -> bool {
    &&& new.name == old.name
    &&& same_profiles_except(old.export_profiles@, new.export_profiles@, index as int)
    &&& new.export_profiles@[index as int] == p
}

/// Export target `index` was switched to `enabled`, and that was reported.
pub open spec fn enabled_set_holds(
    old: ProjectState,
    new: ProjectState,
    index: usize,
    enabled: bool,
    r: StatusMessage,
) -> bool {
    let old_p = old.export_profiles@[index as int];
    &&& target_replaced(old, new, index, ExportProfile { enabled, ..old_p })
    &&& message_view(r) == (if enabled {
        UiText::StatusExportTargetEnabled
    } else {
        UiText::StatusExportTargetDisabled
    }, seq![old_p.name@], None::<usize>)
}

/// Export target `index` was sent to `path`, and that was reported.
pub open spec fn output_set_holds(
    old: ProjectState,
    new: ProjectState,
    index: usize,
    path: Seq<char>,
    r: StatusMessage,
) -> bool {
    let old_p = old.export_profiles@[index as int];
    let new_p = new.export_profiles@[index as int];
    &&& target_replaced(old, new, index, new_p)
    &&& new_p.name == old_p.name && new_p.enabled == old_p.enabled && new_p.format == old_p.format
    &&& new_p.output_path@ == path
    &&& message_view(r) == (UiText::StatusExportOutputUpdated, seq![old_p.name@, path], None::<usize>)
}

/// Export target `index` was given the template at `path`, and that was reported.
pub open spec fn template_set_holds(
    old: ProjectState,
    new: ProjectState,
    index: usize,
    path: Seq<char>,
    r: StatusMessage,
) -> bool {
    let old_p = old.export_profiles@[index as int];
    let new_p = new.export_profiles@[index as int];
    &&& target_replaced(old, new, index, new_p)
    &&& new_p.name == old_p.name && new_p.enabled == old_p.enabled && new_p.output_path == old_p.output_path
    &&& (new_p.format matches ExportFormat::Template { template_path } && template_path@ == path)
    &&& message_view(r) == (UiText::StatusExportTemplateUpdated, seq![old_p.name@, path], None::<usize>)
}

/// Switches export target `index` on or off.
pub fn set_export_enabled(project: &mut ProjectState, index: usize, enabled: bool) -> (r: StatusMessage)
    ensures
        index >= old(project).export_profiles.len() ==> missing_target_holds(*old(project), *final(project), index, r),
        index < old(project).export_profiles.len() ==> enabled_set_holds(*old(project), *final(project), index, enabled, r),
{
    if index >= project.export_profiles.len() {
        return StatusMessage::MissingExportTarget { index };
    }
    project.export_profiles[index].enabled = enabled;
    let name = project.export_profiles[index].name.clone();
    if enabled {
        StatusMessage::ExportTargetEnabled { name }
    } else {
        StatusMessage::ExportTargetDisabled { name }
    }
}

/// Turns export target `index` off when it is on and on when it is off.
pub fn toggle_export_enabled(project: &mut ProjectState, index: usize) -> (r: StatusMessage)
    ensures
        index >= old(project).export_profiles.len() ==> missing_target_holds(*old(project), *final(project), index, r),
        index < old(project).export_profiles.len() ==> enabled_set_holds(
            *old(project),
            *final(project),
            index,
            !old(project).export_profiles@[index as int].enabled,
            r,
        ),
{
    if index >= project.export_profiles.len() {
        return StatusMessage::MissingExportTarget { index };
    }
    let enabled = !project.export_profiles[index].enabled;
    set_export_enabled(project, index, enabled)
}

/// Sends export target `index` to `path`.
pub fn set_export_output_path(project: &mut ProjectState, index: usize, path: String) -> (r: StatusMessage)
    ensures
        index >= old(project).export_profiles.len() ==> missing_target_holds(*old(project), *final(project), index, r),
        index < old(project).export_profiles.len() ==> output_set_holds(*old(project), *final(project), index, path@, r),
{
    if index >= project.export_profiles.len() {
        return StatusMessage::MissingExportTarget { index };
    }
    let shown = path.clone();
    let name = project.export_profiles[index].name.clone();
    project.export_profiles[index].output_path = path;
    StatusMessage::ExportOutputUpdated { name, path: shown }
}

/// Renders export target `index` from the template at `path`.
pub fn set_export_template_path(project: &mut ProjectState, index: usize, path: String) -> (r: StatusMessage)
    ensures
        index >= old(project).export_profiles.len() ==> missing_target_holds(*old(project), *final(project), index, r),
        index < old(project).export_profiles.len() ==> template_set_holds(*old(project), *final(project), index, path@, r),
{
    if index >= project.export_profiles.len() {
        return StatusMessage::MissingExportTarget { index };
    }
    let shown = path.clone();
    let name = project.export_profiles[index].name.clone();
    project.export_profiles[index].set_template_path(path);
    StatusMessage::ExportTemplateUpdated { name, path: shown }
}

/// Toggling the same export target twice gives back the project that was there before.
pub proof fn law_toggle_export_twice_restores(
    p0: ProjectState,
    p1: ProjectState,
    p2: ProjectState,
    index: usize,
    r1: StatusMessage,
    r2: StatusMessage,
)
    requires
        index < p0.export_profiles.len(),
        enabled_set_holds(p0, p1, index, !p0.export_profiles@[index as int].enabled, r1),
        enabled_set_holds(p1, p2, index, !p1.export_profiles@[index as int].enabled, r2),
    ensures
        p2.name == p0.name,
        p2.export_profiles@ == p0.export_profiles@,
{
    assert(p2.export_profiles@ =~= p0.export_profiles@);
}

/// A line of the configuration dialog: a section heading, or a field and whether it is the
/// highlighted one.
#[derive(Debug, Clone, Copy, PartialEq, Eq, Structural)]
pub enum ConfigLine {
    Header(UiText),
    Field { field: ConfigFieldId, selected: bool },
}

/// The line that shows `field` when `chosen` is the highlighted field.
pub open spec fn field_line(field: ConfigFieldId, chosen: ConfigFieldId) -> ConfigLine {
    ConfigLine::Field { field, selected: field == chosen }
}

/// The lines that show `fields`, in order.
pub open spec fn field_lines(fields: Seq<ConfigFieldId>, chosen: ConfigFieldId) -> Seq<ConfigLine> {
    fields.map_values(|f: ConfigFieldId| field_line(f, chosen))
}

/// The field that a selection index highlights: the index, held to the last field.
pub open spec fn highlighted_field(n: nat, selected: nat) -> ConfigFieldId {
    let fields = config_field_list(n);
    fields[if selected < fields.len() { selected as int } else { fields.len() - 1 }]
}

/// The configuration dialog for a project with `n` export targets: the project's section,
/// the export targets' section and the editor's section, each under its heading.
pub open spec fn config_dialog_lines(n: nat, selected: nat) -> Seq<ConfigLine> {
    let fields = config_field_list(n);
    let chosen = highlighted_field(n, selected);
    seq![ConfigLine::Header(UiText::ConfigSectionProjectSaved)] + field_lines(fields.take(1), chosen)
        + seq![ConfigLine::Header(UiText::ConfigSectionExportSaved)] + field_lines(
        fields.subrange(1, 1 + 3 * n as int),
        chosen,
    ) + seq![ConfigLine::Header(UiText::ConfigSectionEditorLocal)] + field_lines(
        fields.skip(1 + 3 * n as int),
        chosen,
    )
}

/// Appends the lines of `fields[from..to]` to `lines`.
fn push_field_lines(
    lines: &mut Vec<ConfigLine>,
    fields: &Vec<ConfigFieldId>,
    from: usize,
    to: usize,
    chosen: ConfigFieldId,
)
    requires
        from <= to <= fields.len(),
    ensures
        final(lines)@ == old(lines)@ + field_lines(fields@.subrange(from as int, to as int), chosen),
{
    let mut i = from;
    while i < to
        invariant
            from <= i <= to <= fields.len(),
            lines@ == old(lines)@ + field_lines(fields@.subrange(from as int, i as int), chosen),
        decreases to - i,
    {
        let field = fields[i];
        lines.push(ConfigLine::Field { field, selected: field == chosen });
        proof {
            assert(fields@.subrange(from as int, i + 1) =~= fields@.subrange(from as int, i as int).push(
                fields@[i as int],
            ));
            assert(field_lines(fields@.subrange(from as int, i + 1), chosen) =~= field_lines(
                fields@.subrange(from as int, i as int),
                chosen,
            ).push(field_line(fields@[i as int], chosen)));
        }
        i = i + 1;
    }
}

/// The lines of the configuration dialog, with the field at `modal.selected_field`
/// highlighted (an index past the end highlights the last field).
pub fn config_dialog(project: &ProjectState, modal: ConfigModalState) -> (r: Vec<ConfigLine>)
    requires
        3 * project.export_profiles.len() + 4 <= usize::MAX,
    ensures
        r@ == config_dialog_lines(project.export_profiles@.len(), modal.selected_field as nat),
{
    let fields = config_fields(project);
    let n = project.export_profiles.len();
    let last = fields.len() - 1;
    let index = if modal.selected_field < last { modal.selected_field } else { last };
    let chosen = fields[index];
    let mut lines: Vec<ConfigLine> = Vec::new();
    lines.push(ConfigLine::Header(UiText::ConfigSectionProjectSaved));
    push_field_lines(&mut lines, &fields, 0, 1, chosen);
    lines.push(ConfigLine::Header(UiText::ConfigSectionExportSaved));
    push_field_lines(&mut lines, &fields, 1, 1 + 3 * n, chosen);
    lines.push(ConfigLine::Header(UiText::ConfigSectionEditorLocal));
    push_field_lines(&mut lines, &fields, 1 + 3 * n, fields.len(), chosen);
    proof {
        let f = fields@;
        assert(f.subrange(0, 1) =~= f.take(1));
        assert(f.subrange(1 + 3 * n, f.len() as int) =~= f.skip(1 + 3 * n));
        assert(chosen == highlighted_field(n as nat, modal.selected_field as nat));
    }
    lines
}

/// The fields that a workspace panel edits, for a project with `n` export targets: the
/// project's own fields, the export targets' fields or the editor's; other panels edit none.
pub open spec fn panel_field_list(n: nat, panel: PanelId) -> Seq<ConfigFieldId> {
    let all = config_field_list(n);
    match panel {
        PanelId::ProjectConfig => all.take(1),
        PanelId::ExportTargets => all.subrange(1, 1 + 3 * n as int),
        PanelId::EditorPreferences => all.skip(1 + 3 * n as int),
        _ => Seq::empty(),
    }
}

/// The fields that `panel` edits, in order.
pub fn panel_fields(project: &ProjectState, panel: PanelId) -> (r: Vec<ConfigFieldId>)
    requires
        3 * project.export_profiles.len() + 4 <= usize::MAX,
    ensures
        r@ == panel_field_list(project.export_profiles@.len(), panel),
{
    let all = config_fields(project);
    let n = project.export_profiles.len();
    let (from, to) = match panel {
        PanelId::ProjectConfig => (0, 1),
        PanelId::ExportTargets => (1, 1 + 3 * n),
        PanelId::EditorPreferences => (1 + 3 * n, all.len()),
        _ => (0, 0),
    };
    let mut fields: Vec<ConfigFieldId> = Vec::new();
    let mut i = from;
    while i < to
        invariant
            from <= i <= to <= all.len(),
            fields@ == all@.subrange(from as int, i as int),
        decreases to - i,
    {
        fields.push(all[i]);
        proof {
            assert(all@.subrange(from as int, i + 1) =~= all@.subrange(from as int, i as int).push(
                all@[i as int],
            ));
        }
        i = i + 1;
    }
    proof {
        let a = all@;
        assert(a.subrange(0, 1) =~= a.take(1));
        assert(a.subrange(1 + 3 * n, a.len() as int) =~= a.skip(1 + 3 * n));
        assert(a.subrange(0, 0) =~= Seq::<ConfigFieldId>::empty());
    }
    fields
}

/// The field that `panel` has selected at `index` (held to its last field), or `None` for a
/// panel that edits no field.
pub fn active_config_field(project: &ProjectState, panel: PanelId, index: usize) -> (r: Option<
    ConfigFieldId,
>)
    requires
        3 * project.export_profiles.len() + 4 <= usize::MAX,
    ensures
        ({
            let fields = panel_field_list(project.export_profiles@.len(), panel);
            r == if fields.len() == 0 {
                None
            } else {
                Some(fields[held_index(index, fields.len() as usize) as int])
            }
        }),
{
    let fields = panel_fields(project, panel);
    if fields.len() == 0 {
        None
    } else {
        let held = if index < fields.len() { index } else { fields.len() - 1 };
        Some(fields[held])
    }
}

/// The project, export-target and editor panels together edit exactly the fields of the
/// configuration dialog, in the dialog's order.
pub proof fn law_panels_cover_dialog_fields(n: nat)
    ensures
        panel_field_list(n, PanelId::ProjectConfig) + panel_field_list(n, PanelId::ExportTargets)
            + panel_field_list(n, PanelId::EditorPreferences) == config_field_list(n),
{
    let all = config_field_list(n);
    assert(all.take(1) + all.subrange(1, 1 + 3 * n as int) + all.skip(1 + 3 * n as int) =~= all);
}

/// No field occurs twice in the configuration dialog.
proof fn lemma_config_fields_distinct(n: nat)
    requires
        3 * n + 4 <= usize::MAX,
    ensures
        forall|i: int, j: int|
            0 <= i < j < config_field_list(n).len() ==> #[trigger] config_field_list(n)[i]
                != #[trigger] config_field_list(n)[j],
{
    let f = config_field_list(n);
    let m = 3 * n as int;
    let mid = Seq::new(
        3 * n,
        |i: int|
            if i % 3 == 0 {
                ConfigFieldId::ExportEnabled((i / 3) as usize)
            } else if i % 3 == 1 {
                ConfigFieldId::ExportOutputPath((i / 3) as usize)
            } else {
                ConfigFieldId::ExportTemplatePath((i / 3) as usize)
            },
    );
    let tail = seq![
        ConfigFieldId::EditorProjectPath,
        ConfigFieldId::EditorKeymapPreset,
        ConfigFieldId::EditorLocale,
    ];
    assert(f =~= seq![ConfigFieldId::ProjectName] + mid + tail);
    assert forall|i: int, j: int| 0 <= i < j < f.len() implies f[i] != f[j] by {
        if i == 0 {
            if j < 1 + m {
                assert(f[j] == mid[j - 1]);
            } else {
                assert(f[j] == tail[j - 1 - m]);
            }
        } else if i < 1 + m {
            assert(f[i] == mid[i - 1]);
            if j < 1 + m {
                assert(f[j] == mid[j - 1]);
                let a = i - 1;
                let b = j - 1;
                vstd::arithmetic::div_mod::lemma_fundamental_div_mod(a, 3);
                vstd::arithmetic::div_mod::lemma_fundamental_div_mod(b, 3);
                assert(a % 3 != b % 3 || a / 3 != b / 3);
                assert(0 <= a / 3 < n && 0 <= b / 3 < n);
            } else {
                assert(f[j] == tail[j - 1 - m]);
            }
        } else {
            assert(f[i] == tail[i - 1 - m]);
            assert(f[j] == tail[j - 1 - m]);
        }
    }
}

/// The field of the dialog that line `j` of the dialog shows, for a project with `n`
/// export targets (the heading lines are skipped).
spec fn dialog_field_index(n: nat, j: int) -> int {
    if j < 3 {
        j - 1
    } else if j < 3 + 3 * n {
        j - 2
    } else {
        j - 3
    }
}

/// Each field line of the dialog shows the field at `dialog_field_index`.
proof fn lemma_dialog_line_fields(n: nat, selected: nat)
    ensures
        config_dialog_lines(n, selected).len() == config_field_list(n).len() + 3,
        forall|j: int|
            0 <= j < config_dialog_lines(n, selected).len() && (#[trigger] config_dialog_lines(
                n,
                selected,
            )[j]) is Field ==> {
                let q = dialog_field_index(n, j);
                &&& 0 <= q < config_field_list(n).len()
                &&& config_dialog_lines(n, selected)[j] == field_line(
                    config_field_list(n)[q],
                    highlighted_field(n, selected),
                )
            },
        forall|j: int|
            #![trigger config_dialog_lines(n, selected)[j]]
            (j == 0 || j == 2 || j == 3 + 3 * n) ==> config_dialog_lines(n, selected)[j] is Header,
{
    let f = config_field_list(n);
    let c = highlighted_field(n, selected);
    let lines = config_dialog_lines(n, selected);
    let m = 3 * n as int;
    let l0 = field_lines(f.take(1), c);
    let l1 = field_lines(f.subrange(1, 1 + m), c);
    let l2 = field_lines(f.skip(1 + m), c);
    assert(lines =~= seq![ConfigLine::Header(UiText::ConfigSectionProjectSaved)] + l0 + seq![
        ConfigLine::Header(UiText::ConfigSectionExportSaved)] + l1 + seq![
        ConfigLine::Header(UiText::ConfigSectionEditorLocal)] + l2);
    assert forall|j: int| 0 <= j < lines.len() && (#[trigger] lines[j]) is Field implies {
        let q = dialog_field_index(n, j);
        &&& 0 <= q < f.len()
        &&& lines[j] == field_line(f[q], c)
    } by {
        if j == 1 {
            assert(lines[j] == l0[0]);
        } else if 3 <= j < 3 + m {
            assert(lines[j] == l1[j - 3]);
        } else if 4 + m <= j {
            assert(lines[j] == l2[j - 4 - m]);
        }
    }
}

/// The configuration dialog highlights exactly one line, the one that shows the field at the
/// selection (held to the last field).
pub proof fn law_config_dialog_highlights_one_line(n: nat, selected: nat)
    requires
        3 * n + 4 <= usize::MAX,
    ensures
        exists|j: int|
            0 <= j < config_dialog_lines(n, selected).len() && #[trigger] config_dialog_lines(
                n,
                selected,
            )[j] == (ConfigLine::Field { field: highlighted_field(n, selected), selected: true }),
        forall|j: int, k: int|
            0 <= j < config_dialog_lines(n, selected).len() && 0 <= k < config_dialog_lines(
                n,
                selected,
            ).len() && (#[trigger] config_dialog_lines(n, selected)[j] matches ConfigLine::Field {
                selected: true,
                ..
            }) && (#[trigger] config_dialog_lines(n, selected)[k] matches ConfigLine::Field {
                selected: true,
                ..
            }) ==> j == k,
{
    let f = config_field_list(n);
    let lines = config_dialog_lines(n, selected);
    let m = 3 * n as int;
    lemma_dialog_line_fields(n, selected);
    lemma_config_fields_distinct(n);
    let p = if selected < f.len() { selected as int } else { f.len() - 1 };
    let j0 = if p < 1 { p + 1 } else if p < 1 + m { p + 2 } else { p + 3 };
    assert(lines[j0] is Field) by {
        let c = highlighted_field(n, selected);
        let l0 = field_lines(f.take(1), c);
        let l1 = field_lines(f.subrange(1, 1 + m), c);
        let l2 = field_lines(f.skip(1 + m), c);
        assert(lines =~= seq![ConfigLine::Header(UiText::ConfigSectionProjectSaved)] + l0 + seq![
            ConfigLine::Header(UiText::ConfigSectionExportSaved)] + l1 + seq![
            ConfigLine::Header(UiText::ConfigSectionEditorLocal)] + l2);
        if p < 1 {
            assert(lines[j0] == l0[0]);
        } else if p < 1 + m {
            assert(lines[j0] == l1[p - 1]);
        } else {
            assert(lines[j0] == l2[p - 1 - m]);
        }
    }
    assert(dialog_field_index(n, j0) == p);
    assert(lines[j0] == (ConfigLine::Field { field: highlighted_field(n, selected), selected: true }));
    assert forall|j: int, k: int|
        0 <= j < lines.len() && 0 <= k < lines.len() && (#[trigger] lines[j] matches ConfigLine::Field {
            selected: true,
            ..
        }) && (#[trigger] lines[k] matches ConfigLine::Field { selected: true, .. }) implies j == k by {
        let qj = dialog_field_index(n, j);
        let qk = dialog_field_index(n, k);
        assert(f[qj] == highlighted_field(n, selected));
        assert(f[qk] == highlighted_field(n, selected));
        if qj < qk {
            assert(f[qj] != f[qk]);
        } else if qk < qj {
            assert(f[qk] != f[qj]);
        }
        if j != k {
            assert(j != 0 && j != 2 && j != 3 + m);
            assert(k != 0 && k != 2 && k != 3 + m);
        }
    }
}

/// Moves the configuration dialog's selection by `delta` among its fields, wrapping at both
/// ends (a selection past the end is first held to the last field). Nothing changes while
/// the dialog is closed.
pub fn move_config_selection(modal: &mut Option<ConfigModalState>, project: &ProjectState, delta: i32)
    requires
        3 * project.export_profiles.len() + 4 <= usize::MAX,
        *old(modal) matches Some(m) ==> step_fits(
            m.selected_field,
            (3 * project.export_profiles.len() + 4) as usize,
            delta,
        ),
    ensures
        match *old(modal) {
            Some(m) => *final(modal) == Some(
                ConfigModalState {
                    selected_field: stepped_index(
                        m.selected_field,
                        (3 * project.export_profiles.len() + 4) as usize,
                        delta,
                    )->0 as usize,
                },
            ),
            None => *final(modal) is None,
        },
{
    let len = config_fields(project).len();
    match modal {
        Some(m) => {
            match step_selection(m.selected_field, len, delta) {
                Some(i) => {
                    m.selected_field = i;
                },
                None => {},
            }
        },
        None => {},
    }
}

/// The text that editing `field` starts from: the field's current text, or nothing for a
/// field that is toggled or cycled, or for an export target that does not exist.
pub open spec fn config_input_start(project: ProjectState, editor: EditorState, field: ConfigFieldId) -> Seq<
    char,
> {
    let profiles = project.export_profiles@;
    match field {
        ConfigFieldId::ProjectName => project.name@,
        ConfigFieldId::EditorProjectPath => editor.project_path@,
        ConfigFieldId::ExportOutputPath(i) => if i < profiles.len() {
            profiles[i as int].output_path@
        } else {
            Seq::empty()
        },
        ConfigFieldId::ExportTemplatePath(i) => if i < profiles.len() {
            match profiles[i as int].format {
                ExportFormat::Template { template_path } => template_path@,
                ExportFormat::Alacritty => Seq::empty(),
            }
        } else {
            Seq::empty()
        },
        _ => Seq::empty(),
    }
}

/// The text that editing `field` starts from (see [`config_input_start`]).
pub fn default_config_input(project: &ProjectState, editor: &EditorState, field: ConfigFieldId) -> (r:
    String)
    ensures
        r@ == config_input_start(*project, *editor, field),
{
    match field {
        ConfigFieldId::ProjectName => project.name.clone(),
        ConfigFieldId::EditorProjectPath => editor.project_path.clone(),
        ConfigFieldId::ExportOutputPath(i) => {
            if i < project.export_profiles.len() {
                project.export_profiles[i].output_path.clone()
            } else {
                String::new()
            }
        },
        ConfigFieldId::ExportTemplatePath(i) => {
            if i < project.export_profiles.len() {
                match &project.export_profiles[i].format {
                    ExportFormat::Template { template_path } => template_path.clone(),
                    ExportFormat::Alacritty => String::new(),
                }
            } else {
                String::new()
            }
        },
        _ => String::new(),
    }
}

/// How messages name `field`: its text key, and for an export target's field the target's
/// index (numbered from 0 here; messages show it from 1).
pub fn config_field_name(field: ConfigFieldId) -> (r: (UiText, Option<usize>))
    ensures
        r == match field {
            ConfigFieldId::ProjectName => (UiText::FieldProjectNameLower, None),
            ConfigFieldId::ExportEnabled(i) => (UiText::FieldExportTarget, Some(i)),
            ConfigFieldId::ExportOutputPath(i) => (UiText::FieldExportOutputPath, Some(i)),
            ConfigFieldId::ExportTemplatePath(i) => (UiText::FieldExportTemplatePath, Some(i)),
            ConfigFieldId::EditorProjectPath => (UiText::FieldProjectFilePath, None),
            ConfigFieldId::EditorKeymapPreset => (UiText::FieldKeymapPresetLower, None),
            ConfigFieldId::EditorLocale => (UiText::FieldLanguageLower, None),
        },
{
    match field {
        ConfigFieldId::ProjectName => (UiText::FieldProjectNameLower, None),
        ConfigFieldId::ExportEnabled(i) => (UiText::FieldExportTarget, Some(i)),
        ConfigFieldId::ExportOutputPath(i) => (UiText::FieldExportOutputPath, Some(i)),
        ConfigFieldId::ExportTemplatePath(i) => (UiText::FieldExportTemplatePath, Some(i)),
        ConfigFieldId::EditorProjectPath => (UiText::FieldProjectFilePath, None),
        ConfigFieldId::EditorKeymapPreset => (UiText::FieldKeymapPresetLower, None),
        ConfigFieldId::EditorLocale => (UiText::FieldLanguageLower, None),
    }
}

/// How the configuration dialog labels `field`: its text key, and for an export target's
/// field the target's index (numbered from 0 here; labels show it from 1).
pub fn config_field_label(field: ConfigFieldId) -> (r: (UiText, Option<usize>))
    ensures
        r == match field {
            ConfigFieldId::ProjectName => (UiText::ConfigLabelProjectName, None),
            ConfigFieldId::ExportEnabled(i) => (UiText::ConfigLabelTarget, Some(i)),
            ConfigFieldId::ExportOutputPath(i) => (UiText::ConfigLabelOutput, Some(i)),
            ConfigFieldId::ExportTemplatePath(i) => (UiText::ConfigLabelTemplate, Some(i)),
            ConfigFieldId::EditorProjectPath => (UiText::ConfigLabelProjectFile, None),
            ConfigFieldId::EditorKeymapPreset => (UiText::ConfigLabelKeymap, None),
            ConfigFieldId::EditorLocale => (UiText::ConfigLabelLanguage, None),
        },
{
    match field {
        ConfigFieldId::ProjectName => (UiText::ConfigLabelProjectName, None),
        ConfigFieldId::ExportEnabled(i) => (UiText::ConfigLabelTarget, Some(i)),
        ConfigFieldId::ExportOutputPath(i) => (UiText::ConfigLabelOutput, Some(i)),
        ConfigFieldId::ExportTemplatePath(i) => (UiText::ConfigLabelTemplate, Some(i)),
        ConfigFieldId::EditorProjectPath => (UiText::ConfigLabelProjectFile, None),
        ConfigFieldId::EditorKeymapPreset => (UiText::ConfigLabelKeymap, None),
        ConfigFieldId::EditorLocale => (UiText::ConfigLabelLanguage, None),
    }
}

/// What activating a configuration field did.
#[derive(Debug, Clone, PartialEq, Eq)]
pub enum ConfigActivation {
    /// The field is edited as text, starting from `start`.
    EditText { field: ConfigFieldId, start: String },
    /// The field changed and `status` reports it; `save_editor_config` says whether the
    /// editor's own settings are to be written out.
    Updated { status: StatusMessage, save_editor_config: bool },
}

/// What activating `field` does to the project and the editor's settings, and what it
/// answers (see [`activate_config_field`]).
pub open spec fn activation_holds(
    old_project: ProjectState,
    old_editor: EditorState,
    field: ConfigFieldId,
    new_project: ProjectState,
    new_editor: EditorState,
    r: ConfigActivation,
) -> bool {
    &&& ((field is ProjectName || field is ExportOutputPath || field is ExportTemplatePath
        || field is EditorProjectPath) ==> {
        &&& new_project == old_project
        &&& new_editor == old_editor
        &&& r matches ConfigActivation::EditText { field: f, start } && f == field && start@
            == config_input_start(old_project, old_editor, field)
    })
    &&& (field matches ConfigFieldId::ExportEnabled(index) ==> {
        &&& new_editor == old_editor
        &&& r matches ConfigActivation::Updated { status, save_editor_config } && !save_editor_config
            && (index >= old_project.export_profiles.len() ==> missing_target_holds(
            old_project,
            new_project,
            index,
            status,
        )) && (index < old_project.export_profiles.len() ==> enabled_set_holds(
            old_project,
            new_project,
            index,
            !old_project.export_profiles@[index as int].enabled,
            status,
        ))
    })
    &&& (field is EditorKeymapPreset ==> {
        &&& new_project == old_project
        &&& new_editor.project_path == old_editor.project_path
        &&& new_editor.locale == old_editor.locale
        &&& new_editor.keymap_preset == spec_next_preset(old_editor.keymap_preset)
        &&& r == (ConfigActivation::Updated {
            status: StatusMessage::KeymapUpdated { preset: new_editor.keymap_preset },
            save_editor_config: true,
        })
    })
    &&& (field is EditorLocale ==> {
        &&& new_project == old_project
        &&& new_editor.project_path == old_editor.project_path
        &&& new_editor.keymap_preset == old_editor.keymap_preset
        &&& new_editor.locale == spec_next_locale(old_editor.locale)
        &&& r == (ConfigActivation::Updated {
            status: StatusMessage::LanguageUpdated { locale: new_editor.locale },
            save_editor_config: true,
        })
    })
}

/// Activates `field`: a text field opens for editing from its current text, an export
/// target is switched on or off, and the keymap and the language move to the next choice
/// (which the editor's settings then keep).
pub fn activate_config_field(project: &mut ProjectState, editor: &mut EditorState, field: ConfigFieldId) -> (r:
    ConfigActivation)
    ensures
        activation_holds(*old(project), *old(editor), field, *final(project), *final(editor), r),
{
    if field.supports_text_input() {
        let start = default_config_input(project, editor, field);
        return ConfigActivation::EditText { field, start };
    }
    match field {
        ConfigFieldId::ExportEnabled(index) => {
            let status = toggle_export_enabled(project, index);
            ConfigActivation::Updated { status, save_editor_config: false }
        },
        ConfigFieldId::EditorKeymapPreset => {
            let preset = editor.keymap_preset.next();
            editor.keymap_preset = preset;
            ConfigActivation::Updated {
                status: StatusMessage::KeymapUpdated { preset },
                save_editor_config: true,
            }
        },
        _ => {
            let locale = editor.locale.next();
            editor.locale = locale;
            ConfigActivation::Updated {
                status: StatusMessage::LanguageUpdated { locale },
                save_editor_config: true,
            }
        },
    }
}

} // verus!
