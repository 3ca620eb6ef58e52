use vstd::prelude::*;

use crate::command_palette::{
    is_command_list, lowered, move_palette_selection, palette_row_after, ranked_listing,
    CommandItem,
};
use crate::i18n::UiText;
use crate::config::{
    message_view,
    activate_config_field, active_config_field, config_fields, panel_fields, activation_holds, apply_config_input, config_field_list,
    config_input_holds, move_config_selection, panel_field_list, ConfigActivation, StatusMessage,
};
use crate::export::{default_export_profiles, default_profiles};
use crate::interaction::routing::Intent;
use crate::interaction::state::{
    model_focus, model_push_once, model_remove, set_modes, InteractionMode, InteractionModel,
    InteractionState,
};
use crate::interaction::surface::{panel_surface, surface_panel, SurfaceId};
use crate::interaction::tree::{ancestors, focus_path_for_surface, OpenModals};
use crate::layout::{panel_for_number, tab_panels, visible_panels_for_tab};
use crate::state::{CommandPaletteState, ConfigFieldId, ConfigModalState, EditorState, ProjectState};
use crate::text::{chars_of, owned, push_char, string_from_range, trim};
use crate::text_input::{accepts, accepts_input_char, typed_char, InputKind};
use crate::ui_meta::{panel_tab, panel_workspace_tab};
use crate::update::{
    cycle_index, held_index, help_scrolled, scroll_shortcut_help, step_fits, step_selection,
    stepped_index,
};
use crate::workspace::{other_tab, PanelId, WorkspaceTab};

verus! {

broadcast use vstd::string::group_string_axioms;

/// What a text input edits: a configuration field, or an inspector control whose typed
/// characters are of the given kind.
#[derive(Debug, Clone, Copy, PartialEq, Eq, Structural)]
pub enum TextInputTarget {
    Config(ConfigFieldId),
    Control(InputKind),
}

/// An open text input: what it edits and what has been typed.
#[derive(Debug, Clone, PartialEq, Eq)]
pub struct TextInputState {
    pub target: TextInputTarget,
    pub buffer: String,
}

/// An open source picker: its filter and the highlighted option.
#[derive(Debug, Clone, PartialEq, Eq)]
pub struct SourcePickerState {
    pub filter: String,
    pub selected: usize,
}

/// The status line, with what it names.
#[derive(Debug, Clone, PartialEq, Eq)]
pub enum Status {
    Idle,
    SwitchedTab { tab: WorkspaceTab, panel: PanelId },
    FocusedPanel(PanelId),
    TabOnlyHasPanels { tab: WorkspaceTab, count: usize },
    FocusedMainWindow,
    FocusedSurface(PanelId),
    SurfaceNavigationActive(SurfaceId),
    SelectedToken(usize),
    SelectedParam(usize),
    SelectedField(ConfigFieldId),
    PanelNoEditableFields(PanelId),
    PanelNoListSelection(PanelId),
    InputCancelled,
    SourcePickerClosed,
    ConfigOpened,
    ConfigClosed,
    HelpOpened,
    HelpClosed,
    InvalidCharacter { ch: char, target: TextInputTarget },
    EditingText(ConfigFieldId),
    Config(StatusMessage),
}

/// Work that the editor's front end carries out after an update: the colour and preview
/// work, and reading and writing files.
#[derive(Debug, Clone, Copy, PartialEq, Eq, Structural)]
pub enum Effect {
    AdjustControlByStep(i32),
    ActivateControl,
    AdjustActiveNumericInputByStep(i32),
    CyclePreviewMode(i32),
    SetPreviewCapture(bool),
    CommitControlInput,
    MoveSourcePickerSelection(i32),
    ApplySourcePickerSelection,
    SaveEditorConfig,
    SaveProject,
    LoadProject,
    ExportTheme,
    ResetTheme,
}

/// The state of the editor's user interface. `token_fields[i]` is the number of inspector
/// fields that token `i`'s rule has.
#[derive(Debug, Clone, PartialEq, Eq)]
pub struct UiState {
    pub active_tab: WorkspaceTab,
    pub theme_panel: PanelId,
    pub project_panel: PanelId,
    pub token_fields: Vec<usize>,
    pub selected_token: usize,
    pub selected_param: usize,
    pub inspector_field: usize,
    pub project_field: usize,
    pub export_field: usize,
    pub editor_field: usize,
    pub interaction_inspector_scroll: u16,
    pub status: Status,
    pub should_quit: bool,
    pub text_input: Option<TextInputState>,
    pub source_picker: Option<SourcePickerState>,
    pub config_modal: Option<ConfigModalState>,
    pub command_palette: Option<CommandPaletteState>,
    pub shortcut_help_open: bool,
    pub shortcut_help_scroll: u16,
    pub interaction: InteractionState,
}

/// Mathematical model of the user interface's state: text as character sequences.
pub struct UiModel {
    pub active_tab: WorkspaceTab,
    pub theme_panel: PanelId,
    pub project_panel: PanelId,
    pub token_fields: Seq<usize>,
    pub selected_token: usize,
    pub selected_param: usize,
    pub inspector_field: usize,
    pub project_field: usize,
    pub export_field: usize,
    pub editor_field: usize,
    pub interaction_inspector_scroll: u16,
    pub status: Status,
    pub should_quit: bool,
    pub text_input: Option<(TextInputTarget, Seq<char>)>,
    pub source_picker: Option<(Seq<char>, usize)>,
    pub config_modal: Option<ConfigModalState>,
    pub command_palette: Option<(Seq<char>, usize)>,
    pub shortcut_help_open: bool,
    pub shortcut_help_scroll: u16,
    pub interaction: InteractionModel,
}

impl View for UiState {
    type V = UiModel;

    open spec fn view(&self) -> UiModel {
        UiModel {
            active_tab: self.active_tab,
            theme_panel: self.theme_panel,
            project_panel: self.project_panel,
            token_fields: self.token_fields@,
            selected_token: self.selected_token,
            selected_param: self.selected_param,
            inspector_field: self.inspector_field,
            project_field: self.project_field,
            export_field: self.export_field,
            editor_field: self.editor_field,
            interaction_inspector_scroll: self.interaction_inspector_scroll,
            status: self.status,
            should_quit: self.should_quit,
            text_input: match self.text_input {
                Some(t) => Some((t.target, t.buffer@)),
                None => None,
            },
            source_picker: match self.source_picker {
                Some(p) => Some((p.filter@, p.selected)),
                None => None,
            },
            config_modal: self.config_modal,
            command_palette: match self.command_palette {
                Some(p) => Some((p.query@, p.selected)),
                None => None,
            },
            shortcut_help_open: self.shortcut_help_open,
            shortcut_help_scroll: self.shortcut_help_scroll,
            interaction: self.interaction@,
        }
    }
}

/// The number of theme parameters.
pub open spec fn param_count() -> usize {
    9
}

/// A consistent state: there are tokens, each with at least one inspector field, and the
/// selected token and parameter exist.
pub open spec fn ui_valid(s: UiModel) -> bool {
    &&& 0 < s.token_fields.len() <= i32::MAX
    &&& forall|i: int| 0 <= i < s.token_fields.len() ==> 1 <= #[trigger] s.token_fields[i] <= i32::MAX
    &&& s.selected_token < s.token_fields.len()
    &&& s.selected_param < param_count()
}

/// The panel that the active tab shows focused.
pub open spec fn active_panel(s: UiModel) -> PanelId {
    match s.active_tab {
        WorkspaceTab::Theme => s.theme_panel,
        WorkspaceTab::Project => s.project_panel,
    }
}

/// `s` with `panel` made active, on its own tab.
pub open spec fn with_active_panel(s: UiModel, panel: PanelId) -> UiModel {
    let tab = panel_tab(panel);
    UiModel {
        active_tab: tab,
        theme_panel: if tab == WorkspaceTab::Theme {
            panel
        } else {
            s.theme_panel
        },
        project_panel: if tab == WorkspaceTab::Project {
            panel
        } else {
            s.project_panel
        },
        ..s
    }
}

/// Whether a dialog, the text input, the source picker, the palette or the help is open.
pub open spec fn transient_open(s: UiModel) -> bool {
    s.source_picker is Some || s.text_input is Some || s.config_modal is Some
        || s.command_palette is Some || s.shortcut_help_open
}

/// Which of the modal surfaces are open.
pub open spec fn open_modals_of(s: UiModel) -> OpenModals {
    OpenModals {
        text_input: s.text_input is Some,
        source_picker: s.source_picker is Some,
        config: s.config_modal is Some,
        command_palette: s.command_palette is Some,
        shortcut_help: s.shortcut_help_open,
    }
}

/// `s` with the focus path `path`.
pub open spec fn with_focus_path(s: UiModel, path: Seq<SurfaceId>) -> UiModel {
    UiModel { interaction: InteractionModel { focus_path: path, ..s.interaction }, ..s }
}

/// The path from the root of the interaction tree of `s` down to `surface`.
pub open spec fn path_to(s: UiModel, surface: SurfaceId) -> Seq<SurfaceId> {
    ancestors(s.active_tab, open_modals_of(s), s.interaction.focus_path, surface, 20).reverse()
}

/// `s` with the mode that `owner`'s dialog opened left.
pub open spec fn without_modal(s: UiModel, owner: SurfaceId) -> UiModel {
    UiModel { interaction: model_remove(s.interaction, InteractionMode::Modal { owner }), ..s }
}

/// Closing the text input.
pub open spec fn closed_text_input(s: UiModel) -> UiModel {
    if s.text_input is Some {
        without_modal(UiModel { text_input: None, ..s }, SurfaceId::NumericEditorSurface)
    } else {
        s
    }
}

/// Closing the source picker.
pub open spec fn closed_source_picker(s: UiModel) -> UiModel {
    if s.source_picker is Some {
        without_modal(UiModel { source_picker: None, ..s }, SurfaceId::SourcePicker)
    } else {
        s
    }
}

/// Closing the configuration dialog.
pub open spec fn closed_config(s: UiModel) -> UiModel {
    if s.config_modal is Some {
        without_modal(UiModel { config_modal: None, ..s }, SurfaceId::ConfigDialog)
    } else {
        s
    }
}

/// Closing the command palette.
pub open spec fn closed_palette(s: UiModel) -> UiModel {
    if s.command_palette is Some {
        without_modal(UiModel { command_palette: None, ..s }, SurfaceId::CommandPalette)
    } else {
        s
    }
}

/// Closing the shortcut help (its scroll goes back to the top).
pub open spec fn closed_help(s: UiModel) -> UiModel {
    if s.shortcut_help_open {
        without_modal(
            UiModel { shortcut_help_open: false, shortcut_help_scroll: 0, ..s },
            SurfaceId::ShortcutHelp,
        )
    } else {
        s
    }
}

/// `s` with the modal mode of `owner` entered (once).
pub open spec fn with_modal(s: UiModel, owner: SurfaceId) -> UiModel {
    UiModel { interaction: model_push_once(s.interaction, InteractionMode::Modal { owner }), ..s }
}

/// Focusing `surface`: the main window takes the root path; a panel's surface becomes
/// active on its tab and takes the path down to it; a dialog takes the path down to it.
pub open spec fn focused_on(s: UiModel, surface: SurfaceId) -> UiModel {
    match surface {
        SurfaceId::AppRoot => s,
        SurfaceId::MainWindow => UiModel {
            status: Status::FocusedMainWindow,
            ..with_focus_path(s, seq![SurfaceId::AppRoot, SurfaceId::MainWindow])
        },
        _ => match surface_panel(surface) {
            Some(panel) => {
                let s1 = with_active_panel(s, panel);
                UiModel {
                    status: Status::FocusedSurface(panel),
                    ..with_focus_path(s1, path_to(s1, surface))
                }
            },
            None => with_focus_path(s, path_to(s, surface)),
        },
    }
}

/// Switching to workspace tab `tab`: a focused panel gives way to the tab's active panel.
pub open spec fn tab_set(s: UiModel, tab: WorkspaceTab) -> UiModel {
    let s1 = UiModel { active_tab: tab, ..s };
    let s2 = if surface_panel(model_focus(s.interaction)) is Some {
        UiModel {
            interaction: InteractionModel {
                focus_path: seq![
                    SurfaceId::AppRoot,
                    SurfaceId::MainWindow,
                    panel_surface(active_panel(s1)),
                ],
                modes: Seq::empty(),
            },
            ..s1
        }
    } else {
        s1
    };
    UiModel { status: Status::SwitchedTab { tab, panel: active_panel(s1) }, ..s2 }
}

/// The panel that number key `number` picks on tab `tab`, counted from 1.
pub open spec fn numbered_panel(tab: WorkspaceTab, number: u8) -> Option<PanelId> {
    let i = if number == 0 {
        0
    } else {
        number - 1
    };
    if i < tab_panels(tab).len() {
        Some(tab_panels(tab)[i])
    } else {
        None
    }
}

/// Focusing the panel with number `number`, or saying how many panels the tab has.
pub open spec fn focused_by_number(s: UiModel, number: u8) -> UiModel {
    match numbered_panel(s.active_tab, number) {
        Some(panel) => UiModel {
            status: Status::FocusedPanel(panel),
            interaction: InteractionModel {
                focus_path: seq![SurfaceId::AppRoot, SurfaceId::MainWindow, panel_surface(panel)],
                modes: Seq::empty(),
            },
            ..with_active_panel(s, panel)
        },
        None => UiModel {
            status: Status::TabOnlyHasPanels {
                tab: s.active_tab,
                count: tab_panels(s.active_tab).len() as usize,
            },
            ..s
        },
    }
}

/// Replacing the active modes by `m`; entering child or scope navigation is reported.
pub open spec fn mode_set(s: UiModel, m: InteractionMode) -> UiModel {
    let s1 = UiModel { interaction: InteractionModel { modes: set_modes(m), ..s.interaction }, ..s };
    match m {
        InteractionMode::NavigateChildren(surface) | InteractionMode::NavigateScope(surface) => UiModel {
            status: Status::SurfaceNavigationActive(surface),
            ..s1
        },
        _ => s1,
    }
}

/// The index `delta` steps from `current` in a list of `len`, with wrap-around.
pub open spec fn cycled(current: usize, len: usize, delta: i32) -> usize {
    (((current as i32) + delta) % (len as i32 as int)) as usize
}

/// Whether stepping `delta` from `current` stays within the editor's `i32` arithmetic.
pub open spec fn cycle_fits(current: usize, delta: i32) -> bool {
    i32::MIN <= (current as i32) + delta <= i32::MAX
}

/// `n - 1`, or 0 for 0.
pub open spec fn last_index(n: usize) -> usize {
    if n == 0 {
        0
    } else {
        (n - 1) as usize
    }
}

/// The smaller of `a` and `b`.
pub open spec fn min_index(a: usize, b: usize) -> usize {
    if a <= b {
        a
    } else {
        b
    }
}

/// The field index that a project-side panel keeps.
pub open spec fn panel_field_index(s: UiModel, panel: PanelId) -> usize {
    match panel {
        PanelId::ProjectConfig => s.project_field,
        PanelId::ExportTargets => s.export_field,
        _ => s.editor_field,
    }
}

/// `s` with the field index of a project-side panel set to `i`.
pub open spec fn with_panel_field_index(s: UiModel, panel: PanelId, i: usize) -> UiModel {
    match panel {
        PanelId::ProjectConfig => UiModel { project_field: i, ..s },
        PanelId::ExportTargets => UiModel { export_field: i, ..s },
        _ => UiModel { editor_field: i, ..s },
    }
}

/// Whether moving the selection of the active panel by `delta` stays within the editor's
/// `i32` arithmetic, for a project with `n` export targets.
pub open spec fn move_fits(s: UiModel, n: nat, delta: i32) -> bool {
    match active_panel(s) {
        PanelId::Tokens => cycle_fits(s.selected_token, delta),
        PanelId::Params => cycle_fits(s.selected_param, delta),
        PanelId::Inspector => cycle_fits(s.inspector_field, delta),
        PanelId::ProjectConfig | PanelId::ExportTargets | PanelId::EditorPreferences => step_fits(
            panel_field_index(s, active_panel(s)),
            panel_field_list(n, active_panel(s)).len() as usize,
            delta,
        ),
        _ => true,
    }
}

/// Moving the selection of the active panel by `delta`: tokens, parameters and inspector
/// fields wrap around (leaving the source picker), a project-side panel wraps among its
/// fields, the interaction inspector scrolls, and other panels say they have no list.
pub open spec fn selection_moved(s: UiModel, n: nat, delta: i32) -> UiModel {
    let panel = active_panel(s);
    match panel {
        PanelId::Tokens => {
            let t = cycled(s.selected_token, s.token_fields.len() as usize, delta);
            let s1 = UiModel {
                selected_token: t,
                inspector_field: min_index(s.inspector_field, last_index(s.token_fields[t as int])),
                ..s
            };
            UiModel { status: Status::SelectedToken(t), ..closed_source_picker(s1) }
        },
        PanelId::Params => {
            let p = cycled(s.selected_param, param_count(), delta);
            UiModel {
                status: Status::SelectedParam(p),
                ..closed_source_picker(UiModel { selected_param: p, ..s })
            }
        },
        PanelId::Inspector => closed_source_picker(
            UiModel {
                inspector_field: cycled(
                    s.inspector_field,
                    s.token_fields[s.selected_token as int],
                    delta,
                ),
                ..s
            },
        ),
        PanelId::ProjectConfig | PanelId::ExportTargets | PanelId::EditorPreferences => {
            let fields = panel_field_list(n, panel);
            let len = fields.len() as usize;
            if len == 0 {
                UiModel { status: Status::PanelNoEditableFields(panel), ..s }
            } else {
                let i = cycled(held_index(panel_field_index(s, panel), len), len, delta);
                UiModel {
                    status: Status::SelectedField(fields[i as int]),
                    ..with_panel_field_index(s, panel, i)
                }
            }
        },
        PanelId::InteractionInspector => UiModel {
            interaction_inspector_scroll: help_scrolled(true, s.interaction_inspector_scroll, delta),
            ..s
        },
        _ => UiModel { status: Status::PanelNoListSelection(panel), ..s },
    }
}

/// Selecting token `index` (held to the last token): the source picker, the text input and
/// the help close.
pub open spec fn token_selected(s: UiModel, index: usize) -> UiModel {
    let t = min_index(index, last_index(s.token_fields.len() as usize));
    let s1 = UiModel {
        selected_token: t,
        inspector_field: min_index(s.inspector_field, last_index(s.token_fields[t as int])),
        ..s
    };
    UiModel {
        status: Status::SelectedToken(t),
        ..closed_help(closed_text_input(closed_source_picker(s1)))
    }
}

/// The kind of characters that an input for `target` takes.
pub open spec fn input_kind(target: TextInputTarget) -> InputKind {
    match target {
        TextInputTarget::Config(_) => InputKind::Text,
        TextInputTarget::Control(k) => k,
    }
}

/// The character that typing `c` into an input of kind `kind` adds.
pub open spec fn typed(kind: InputKind, c: char) -> char {
    if kind == InputKind::HexColor && 'a' <= c && c <= 'z' {
        ((c as u32) - 32) as char
    } else {
        c
    }
}

/// Typing `c` into the open text input: taken or refused with a message.
pub open spec fn char_appended(s: UiModel, c: char) -> UiModel {
    match s.text_input {
        Some((target, buffer)) => {
            let kind = input_kind(target);
            if accepts(kind, c, buffer) {
                UiModel { text_input: Some((target, buffer.push(typed(kind, c)))), ..s }
            } else {
                UiModel { status: Status::InvalidCharacter { ch: c, target }, ..s }
            }
        },
        None => s,
    }
}

/// `t` without its last character, if it has one.
pub open spec fn backspaced(t: Seq<char>) -> Seq<char> {
    if t.len() > 0 {
        t.drop_last()
    } else {
        t
    }
}

/// Opening the text input on configuration field `field`, starting from `start`.
pub open spec fn text_input_opened(s: UiModel, field: ConfigFieldId, start: Seq<char>) -> UiModel {
    let s1 = closed_help(s);
    let s2 = with_modal(
        UiModel { text_input: Some((TextInputTarget::Config(field), start)), ..s1 },
        SurfaceId::NumericEditorSurface,
    );
    UiModel {
        status: Status::EditingText(field),
        ..focused_on(s2, SurfaceId::NumericEditorSurface)
    }
}

/// Opening the configuration dialog on its first field.
pub open spec fn config_opened(s: UiModel) -> UiModel {
    let s1 = closed_help(closed_text_input(closed_source_picker(closed_palette(s))));
    let s2 = with_modal(
        UiModel { config_modal: Some(ConfigModalState { selected_field: 0 }), ..s1 },
        SurfaceId::ConfigDialog,
    );
    UiModel { status: Status::ConfigOpened, ..focused_on(s2, SurfaceId::ConfigDialog) }
}

/// Closing the configuration dialog (and its text input).
pub open spec fn config_closed(s: UiModel) -> UiModel {
    let s1 = closed_config(closed_text_input(s));
    if s.config_modal is Some {
        UiModel { status: Status::ConfigClosed, ..s1 }
    } else {
        s1
    }
}

/// Opening the command palette with an empty query.
pub open spec fn palette_opened(s: UiModel) -> UiModel {
    let s1 = closed_help(closed_config(closed_text_input(closed_source_picker(s))));
    let s2 = with_modal(
        UiModel { command_palette: Some((Seq::empty(), 0)), ..s1 },
        SurfaceId::CommandPalette,
    );
    focused_on(s2, SurfaceId::CommandPalette)
}

/// Opening the shortcut help at its top.
pub open spec fn help_opened(s: UiModel) -> UiModel {
    let s1 = closed_config(closed_text_input(closed_source_picker(closed_palette(s))));
    let s2 = with_modal(
        UiModel { shortcut_help_open: true, shortcut_help_scroll: 0, ..s1 },
        SurfaceId::ShortcutHelp,
    );
    UiModel { status: Status::HelpOpened, ..focused_on(s2, SurfaceId::ShortcutHelp) }
}

/// Opening the shortcut help, or closing it when it is open.
pub open spec fn help_toggled(s: UiModel) -> UiModel {
    if !s.shortcut_help_open {
        help_opened(s)
    } else {
        UiModel { status: Status::HelpClosed, ..closed_help(s) }
    }
}

/// The work that an intent hands on when no dialog is open, and hands on nothing otherwise.
pub open spec fn guarded(s: UiModel, e: Effect) -> (UiModel, Seq<Effect>) {
    if transient_open(s) {
        (s, Seq::empty())
    } else {
        (s, seq![e])
    }
}

/// Whether `intent` changes only the user interface (and hands on work), rather than the
/// project or the editor's settings.
pub open spec fn interface_only(s: UiModel, intent: Intent) -> bool {
    match intent {
        Intent::CommitTextInput => !(s.text_input matches Some((TextInputTarget::Config(_), _))),
        Intent::ActivateConfigField | Intent::MoveCommandPaletteSelection(_)
        | Intent::ResetRequested => false,
        _ => true,
    }
}

/// What an intent that changes only the user interface does, for a project with `n` export
/// targets: the next state and the work handed on.
#[verifier::opaque]
pub open spec fn ui_step(s: UiModel, n: nat, intent: Intent) -> (UiModel, Seq<Effect>) {
    match intent {
        Intent::QuitRequested => (UiModel { should_quit: true, ..s }, Seq::empty()),
        Intent::CycleWorkspaceTab(delta) => if transient_open(s) {
            (s, Seq::empty())
        } else {
            (tab_set(s, other_tab(s.active_tab)), Seq::empty())
        },
        Intent::SetWorkspaceTab(tab) => if transient_open(s) {
            (s, Seq::empty())
        } else {
            (tab_set(s, tab), Seq::empty())
        },
        Intent::FocusPanelByNumber(number) => if transient_open(s) {
            (s, Seq::empty())
        } else {
            (focused_by_number(s, number), Seq::empty())
        },
        Intent::FocusSurface(surface) => (focused_on(s, surface), Seq::empty()),
        Intent::SetInteractionMode(m) => (mode_set(s, m), Seq::empty()),
        Intent::MoveSelection(delta) => if transient_open(s) {
            (s, Seq::empty())
        } else {
            (selection_moved(s, n, delta), Seq::empty())
        },
        Intent::SelectToken(index) => (token_selected(s, index), Seq::empty()),
        Intent::AdjustControlByStep(delta) => guarded(s, Effect::AdjustControlByStep(delta)),
        Intent::ActivateControl => guarded(s, Effect::ActivateControl),
        Intent::CyclePreviewMode(delta) => guarded(s, Effect::CyclePreviewMode(delta)),
        Intent::AdjustActiveNumericInputByStep(delta) => (
            s,
            seq![Effect::AdjustActiveNumericInputByStep(delta)],
        ),
        Intent::SetPreviewCapture(on) => (s, seq![Effect::SetPreviewCapture(on)]),
        Intent::AppendTextInput(c) => (char_appended(s, c), Seq::empty()),
        Intent::BackspaceTextInput => (
            match s.text_input {
                Some((target, buffer)) => UiModel { text_input: Some((target, backspaced(buffer))), ..s },
                None => s,
            },
            Seq::empty(),
        ),
        Intent::ClearTextInput => (
            match s.text_input {
                Some((target, _)) => UiModel { text_input: Some((target, Seq::empty())), ..s },
                None => s,
            },
            Seq::empty(),
        ),
        Intent::CommitTextInput => match s.text_input {
            Some((TextInputTarget::Control(_), _)) => (s, seq![Effect::CommitControlInput]),
            _ => (s, Seq::empty()),
        },
        Intent::CancelTextInput => (
            UiModel { status: Status::InputCancelled, ..closed_text_input(s) },
            Seq::empty(),
        ),
        Intent::AppendSourcePickerFilter(c) => (
            match s.source_picker {
                Some((filter, _)) => UiModel { source_picker: Some((filter.push(c), 0)), ..s },
                None => s,
            },
            Seq::empty(),
        ),
        Intent::BackspaceSourcePickerFilter => (
            match s.source_picker {
                Some((filter, _)) => UiModel { source_picker: Some((backspaced(filter), 0)), ..s },
                None => s,
            },
            Seq::empty(),
        ),
        Intent::ClearSourcePickerFilter => (
            match s.source_picker {
                Some(_) => UiModel { source_picker: Some((Seq::empty(), 0)), ..s },
                None => s,
            },
            Seq::empty(),
        ),
        Intent::MoveSourcePickerSelection(delta) => (s, seq![Effect::MoveSourcePickerSelection(delta)]),
        Intent::ApplySourcePickerSelection => (s, seq![Effect::ApplySourcePickerSelection]),
        Intent::CloseSourcePicker => (
            UiModel { status: Status::SourcePickerClosed, ..closed_source_picker(s) },
            Seq::empty(),
        ),
        Intent::OpenConfigRequested => (config_opened(s), Seq::empty()),
        Intent::CloseConfigRequested => (config_closed(s), Seq::empty()),
        Intent::MoveConfigSelection(delta) => (
            match s.config_modal {
                Some(m) => UiModel {
                    config_modal: Some(
                        ConfigModalState {
                            selected_field: stepped_index(
                                m.selected_field,
                                (3 * n + 4) as usize,
                                delta,
                            )->0 as usize,
                        },
                    ),
                    ..s
                },
                None => s,
            },
            Seq::empty(),
        ),
        Intent::OpenCommandPaletteRequested => (palette_opened(s), Seq::empty()),
        Intent::CloseCommandPaletteRequested => (closed_palette(s), Seq::empty()),
        Intent::AppendCommandPaletteQuery(c) => (
            match s.command_palette {
                Some((query, _)) => UiModel { command_palette: Some((query.push(c), 0)), ..s },
                None => s,
            },
            Seq::empty(),
        ),
        Intent::BackspaceCommandPaletteQuery => (
            match s.command_palette {
                Some((query, _)) => UiModel { command_palette: Some((backspaced(query), 0)), ..s },
                None => s,
            },
            Seq::empty(),
        ),
        Intent::ClearCommandPaletteQuery => (
            match s.command_palette {
                Some(_) => UiModel { command_palette: Some((Seq::empty(), 0)), ..s },
                None => s,
            },
            Seq::empty(),
        ),
        Intent::ToggleShortcutHelpRequested => (help_toggled(s), Seq::empty()),
        Intent::ScrollShortcutHelp(delta) => (
            UiModel {
                shortcut_help_scroll: help_scrolled(s.shortcut_help_open, s.shortcut_help_scroll, delta),
                ..s
            },
            Seq::empty(),
        ),
        Intent::SaveProjectRequested => (s, seq![Effect::SaveProject]),
        Intent::LoadProjectRequested => (s, seq![Effect::LoadProject]),
        Intent::ExportThemeRequested => (s, seq![Effect::ExportTheme]),
        _ => (s, Seq::empty()),
    }
}

/// The work that committing a configuration field's text hands on: the editor's own
/// settings are written out after they change.
pub open spec fn commit_effects(field: ConfigFieldId) -> Seq<Effect> {
    if field is EditorProjectPath || field is EditorKeymapPreset || field is EditorLocale {
        seq![Effect::SaveEditorConfig]
    } else {
        Seq::empty()
    }
}

/// The configuration field that activating acts on: the dialog's highlighted field while it
/// is open, else the selected field of the active panel (none on other panels).
pub open spec fn config_target(s: UiModel, n: nat) -> Option<ConfigFieldId> {
    match s.config_modal {
        Some(m) => Some(config_field_list(n)[held_index(m.selected_field, (3 * n + 4) as usize) as int]),
        None => {
            let fields = panel_field_list(n, active_panel(s));
            if fields.len() == 0 {
                None
            } else {
                Some(fields[held_index(panel_field_index(s, active_panel(s)), fields.len() as usize) as int])
            }
        },
    }
}

/// Resetting the interface: the first token, parameter and field are selected, every dialog
/// closes and the preview stops capturing keys.
pub open spec fn interface_reset(s: UiModel) -> UiModel {
    let s1 = UiModel { selected_token: 0, selected_param: 0, inspector_field: 0, ..s };
    let s2 = closed_help(closed_config(closed_source_picker(closed_text_input(s1))));
    UiModel {
        interaction: model_remove(
            s2.interaction,
            InteractionMode::Capture { owner: SurfaceId::PreviewBody },
        ),
        ..s2
    }
}

/// The query of the open command palette.
pub open spec fn palette_query(s: UiModel) -> Seq<char> {
    match s.command_palette {
        Some((query, _)) => query,
        None => Seq::empty(),
    }
}

/// The highlighted row of the open command palette.
pub open spec fn palette_selected(s: UiModel) -> usize {
    match s.command_palette {
        Some((_, selected)) => selected,
        None => 0,
    }
}

/// Whether `intent` can be carried out without overflowing the editor's `i32` arithmetic,
/// for a project with `n` export targets.
pub open spec fn update_fits(s: UiModel, n: nat, intent: Intent) -> bool {
    match intent {
        Intent::MoveSelection(delta) => !transient_open(s) ==> move_fits(s, n, delta),
        Intent::MoveConfigSelection(delta) => s.config_modal matches Some(m) ==> step_fits(
            m.selected_field,
            (3 * n + 4) as usize,
            delta,
        ),
        Intent::MoveCommandPaletteSelection(delta) => s.command_palette is Some ==> forall|
            items: Seq<CommandItem>,
            r: Seq<CommandItem>,
        |
            #![trigger is_command_list(items, active_panel(s)), ranked_listing(items, lowered(trim(palette_query(s))), r)]
            is_command_list(items, active_panel(s)) && ranked_listing(
                items,
                lowered(trim(palette_query(s))),
                r,
            ) ==> step_fits(palette_selected(s), r.len() as usize, delta),
        _ => true,
    }
}

proof fn lemma_cycled_in_range(current: usize, len: usize, delta: i32)
    requires
        0 < len <= i32::MAX,
        current <= i32::MAX,
    ensures
        cycled(current, len, delta) < len,
{
    assert(len as i32 == len);
    let x: int = (current as i32) + delta;
    let m: int = len as int;
    assert(0 <= x % m < m) by (nonlinear_arith)
        requires
            m > 0,
    ;
}

proof fn lemma_stepped_in_range(h: usize, len: usize, delta: i32)
    requires
        len > 0,
        len as i32 != 0,
    ensures
        0 <= ((h as i32) + delta) % (len as i32 as int) < len,
{
    let m: int = len as i32 as int;
    let x: int = (h as i32) + delta;
    if m > 0 {
        assert(0 <= x % m < m) by (nonlinear_arith)
            requires
                m > 0,
        ;
    } else {
        assert(0 <= x % m < -m) by (nonlinear_arith)
            requires
                m < 0,
        ;
    }
    if len <= i32::MAX {
        assert(len as i32 == len);
    }
}

impl UiState {
    /// The panel that the active tab shows focused.
    pub fn active_panel(&self) -> (r: PanelId)
        ensures
            r == active_panel(self@),
    {
        match self.active_tab {
            WorkspaceTab::Theme => self.theme_panel,
            WorkspaceTab::Project => self.project_panel,
        }
    }

    /// Makes `panel` active, on its own tab.
    pub fn set_active_panel(&mut self, panel: PanelId)
        ensures
            final(self)@ == with_active_panel(old(self)@, panel),
    {
        let tab = panel_workspace_tab(panel);
        self.active_tab = tab;
        match tab {
            WorkspaceTab::Theme => self.theme_panel = panel,
            WorkspaceTab::Project => self.project_panel = panel,
        }
    }

    /// Whether a dialog, the text input, the source picker, the palette or the help is open.
    pub fn transient_surface_open(&self) -> (r: bool)
        ensures
            r == transient_open(self@),
    {
        self.source_picker.is_some() || self.text_input.is_some() || self.config_modal.is_some()
            || self.command_palette.is_some() || self.shortcut_help_open
    }

    /// Which of the modal surfaces are open.
    pub fn open_modals(&self) -> (r: OpenModals)
        ensures
            r == open_modals_of(self@),
    {
        OpenModals {
            text_input: self.text_input.is_some(),
            source_picker: self.source_picker.is_some(),
            config: self.config_modal.is_some(),
            command_palette: self.command_palette.is_some(),
            shortcut_help: self.shortcut_help_open,
        }
    }

    fn close_text_input(&mut self)
        ensures
            final(self)@ == closed_text_input(old(self)@),
    {
        if self.text_input.is_some() {
            self.text_input = None;
            self.interaction.remove_mode(InteractionMode::Modal { owner: SurfaceId::NumericEditorSurface });
        }
    }

    fn close_source_picker(&mut self)
        ensures
            final(self)@ == closed_source_picker(old(self)@),
    {
        if self.source_picker.is_some() {
            self.source_picker = None;
            self.interaction.remove_mode(InteractionMode::Modal { owner: SurfaceId::SourcePicker });
        }
    }

    fn close_config(&mut self)
        ensures
            final(self)@ == closed_config(old(self)@),
    {
        if self.config_modal.is_some() {
            self.config_modal = None;
            self.interaction.remove_mode(InteractionMode::Modal { owner: SurfaceId::ConfigDialog });
        }
    }

    fn close_palette(&mut self)
        ensures
            final(self)@ == closed_palette(old(self)@),
    {
        if self.command_palette.is_some() {
            self.command_palette = None;
            self.interaction.remove_mode(InteractionMode::Modal { owner: SurfaceId::CommandPalette });
        }
    }

    fn close_help(&mut self)
        ensures
            final(self)@ == closed_help(old(self)@),
    {
        if self.shortcut_help_open {
            self.shortcut_help_open = false;
            self.shortcut_help_scroll = 0;
            self.interaction.remove_mode(InteractionMode::Modal { owner: SurfaceId::ShortcutHelp });
        }
    }

    fn push_modal(&mut self, owner: SurfaceId)
        ensures
            final(self)@ == with_modal(old(self)@, owner),
    {
        self.interaction.push_mode_once(InteractionMode::Modal { owner });
    }

    /// Moves the focus to `surface` (see [`focused_on`]).
    #[verifier::spinoff_prover]
    pub fn focus_surface(&mut self, surface: SurfaceId)
        ensures
            final(self)@ == focused_on(old(self)@, surface),
    {
        match surface {
            SurfaceId::AppRoot => {},
            SurfaceId::MainWindow => {
                self.interaction.set_focus_root_path();
                self.status = Status::FocusedMainWindow;
            },
            _ => {
                match surface.panel_id() {
                    Some(panel) => {
                        self.set_active_panel(panel);
                        self.status = Status::FocusedSurface(panel);
                    },
                    None => {},
                }
                let open = self.open_modals();
                match focus_path_for_surface(self.active_tab, open, &self.interaction, surface) {
                    Some(path) => {
                        self.interaction.focus_path = path;
                    },
                    None => {},
                }
            },
        }
    }

    /// Switches to workspace tab `tab` (see [`tab_set`]).
    pub fn set_workspace_tab(&mut self, tab: WorkspaceTab)
        ensures
            final(self)@ == tab_set(old(self)@, tab),
    {
        let on_panel = self.interaction.focused_workspace_surface().is_workspace_panel();
        self.active_tab = tab;
        let panel = self.active_panel();
        if on_panel {
            self.interaction.focus_panel(panel);
        }
        self.status = Status::SwitchedTab { tab, panel };
    }

    /// Focuses the panel with number `number` (see [`focused_by_number`]).
    pub fn focus_panel_by_number(&mut self, number: u8)
        ensures
            final(self)@ == focused_by_number(old(self)@, number),
    {
        match panel_for_number(self.active_tab, number) {
            Some(panel) => {
                self.set_active_panel(panel);
                self.interaction.focus_panel(panel);
                self.status = Status::FocusedPanel(panel);
            },
            None => {
                let count = visible_panels_for_tab(self.active_tab).len();
                self.status = Status::TabOnlyHasPanels { tab: self.active_tab, count };
            },
        }
    }

    /// Replaces the active modes by `mode` (see [`mode_set`]).
    pub fn set_interaction_mode(&mut self, mode: InteractionMode)
        ensures
            final(self)@ == mode_set(old(self)@, mode),
    {
        self.interaction.set_mode(mode);
        match mode {
            InteractionMode::NavigateChildren(surface) | InteractionMode::NavigateScope(surface) => {
                self.status = Status::SurfaceNavigationActive(surface);
            },
            _ => {},
        }
    }

    /// Selects token `index` (see [`token_selected`]).
    #[verifier::rlimit(50)]
    #[verifier::spinoff_prover]
    pub fn select_token(&mut self, index: usize)
        requires
            ui_valid(old(self)@),
        ensures
            final(self)@ == token_selected(old(self)@, index),
    {
        let last = self.token_fields.len() - 1;
        let t = if index <= last { index } else { last };
        let fields = self.token_fields[t];
        let last_field = if fields == 0 { 0 } else { fields - 1 };
        self.selected_token = t;
        if self.inspector_field > last_field {
            self.inspector_field = last_field;
        }
        self.close_source_picker();
        self.close_text_input();
        self.close_help();
        self.status = Status::SelectedToken(t);
    }

    /// Types `c` into the open text input (see [`char_appended`]).
    pub fn append_text_input(&mut self, c: char)
        ensures
            final(self)@ == char_appended(old(self)@, c),
    {
        match self.text_input.take() {
            Some(input) => {
                let kind = match input.target {
                    TextInputTarget::Config(_) => InputKind::Text,
                    TextInputTarget::Control(k) => k,
                };
                let target = input.target;
                let mut buffer = input.buffer;
                if accepts_input_char(kind, c, buffer.as_str()) {
                    push_char(&mut buffer, typed_char(kind, c));
                } else {
                    self.status = Status::InvalidCharacter { ch: c, target };
                }
                self.text_input = Some(TextInputState { target, buffer });
            },
            None => {},
        }
    }

    /// Opens the text input on configuration field `field`, starting from `start`.
    #[verifier::spinoff_prover]
    fn open_config_text_input(&mut self, field: ConfigFieldId, start: String)
        ensures
            final(self)@ == text_input_opened(old(self)@, field, start@),
    {
        self.close_help();
        self.text_input = Some(TextInputState { target: TextInputTarget::Config(field), buffer: start });
        self.push_modal(SurfaceId::NumericEditorSurface);
        self.focus_surface(SurfaceId::NumericEditorSurface);
        self.status = Status::EditingText(field);
    }

    /// Opens the configuration dialog (see [`config_opened`]).
    #[verifier::spinoff_prover]
    pub fn open_config(&mut self)
        ensures
            final(self)@ == config_opened(old(self)@),
    {
        self.close_palette();
        self.close_source_picker();
        self.close_text_input();
        self.close_help();
        self.config_modal = Some(ConfigModalState { selected_field: 0 });
        self.push_modal(SurfaceId::ConfigDialog);
        self.focus_surface(SurfaceId::ConfigDialog);
        self.status = Status::ConfigOpened;
    }

    /// Closes the configuration dialog (see [`config_closed`]).
    pub fn close_config_dialog(&mut self)
        ensures
            final(self)@ == config_closed(old(self)@),
    {
        let was_open = self.config_modal.is_some();
        self.close_text_input();
        self.close_config();
        if was_open {
            self.status = Status::ConfigClosed;
        }
    }

    /// Opens the command palette (see [`palette_opened`]).
    #[verifier::spinoff_prover]
    pub fn open_command_palette(&mut self)
        ensures
            final(self)@ == palette_opened(old(self)@),
    {
        self.close_source_picker();
        self.close_text_input();
        self.close_config();
        self.close_help();
        self.command_palette = Some(CommandPaletteState { query: String::new(), selected: 0 });
        self.push_modal(SurfaceId::CommandPalette);
        self.focus_surface(SurfaceId::CommandPalette);
    }

    #[verifier::spinoff_prover]
    fn open_help(&mut self)
        ensures
            final(self)@ == help_opened(old(self)@),
    {
        self.close_palette();
        self.close_source_picker();
        self.close_text_input();
        self.close_config();
        self.shortcut_help_open = true;
        self.shortcut_help_scroll = 0;
        self.push_modal(SurfaceId::ShortcutHelp);
        self.focus_surface(SurfaceId::ShortcutHelp);
        self.status = Status::HelpOpened;
    }

    /// Opens or closes the shortcut help (see [`help_toggled`]).
    pub fn toggle_shortcut_help(&mut self)
        ensures
            final(self)@ == help_toggled(old(self)@),
    {
        if !self.shortcut_help_open {
            self.open_help();
        } else {
            self.close_help();
            self.status = Status::HelpClosed;
        }
    }

    /// Resets the interface (see [`interface_reset`]).
    fn reset_interface(&mut self)
        ensures
            final(self)@ == interface_reset(old(self)@),
    {
        self.selected_token = 0;
        self.selected_param = 0;
        self.inspector_field = 0;
        self.close_text_input();
        self.close_source_picker();
        self.close_config();
        self.close_help();
        self.interaction.remove_mode(InteractionMode::Capture { owner: SurfaceId::PreviewBody });
    }
}

/// `t` without its last character, if it has one.
fn without_last(t: String) -> (r: String)
    ensures
        r@ == backspaced(t@),
{
    let chars = chars_of(t.as_str());
    let n = chars.len();
    if n > 0 {
        let r = string_from_range(&chars, 0, n - 1);
        assert(chars@.subrange(0, n - 1) =~= t@.drop_last());
        r
    } else {
        t
    }
}

/// Moves the selection of the active panel by `delta` (see [`selection_moved`]), for the
/// project `project`.
#[verifier::spinoff_prover]
pub fn move_selection(state: &mut UiState, project: &ProjectState, delta: i32)
    requires
        ui_valid(old(state)@),
        3 * project.export_profiles.len() + 4 <= usize::MAX,
        move_fits(old(state)@, project.export_profiles@.len(), delta),
    ensures
        final(state)@ == selection_moved(old(state)@, project.export_profiles@.len(), delta),
        ui_valid(final(state)@),
{
    let ghost n = project.export_profiles@.len();
    let panel = state.active_panel();
    match panel {
        PanelId::Tokens => {
            let len = state.token_fields.len();
            proof {
                lemma_cycled_in_range(state.selected_token, len, delta);
            }
            let t = cycle_index(state.selected_token, len, delta);
            let fields = state.token_fields[t];
            let last = if fields == 0 { 0 } else { fields - 1 };
            state.selected_token = t;
            if state.inspector_field > last {
                state.inspector_field = last;
            }
            state.close_source_picker();
            state.status = Status::SelectedToken(t);
        },
        PanelId::Params => {
            proof {
                lemma_cycled_in_range(state.selected_param, 9, delta);
            }
            let p = cycle_index(state.selected_param, 9, delta);
            state.selected_param = p;
            state.close_source_picker();
            state.status = Status::SelectedParam(p);
        },
        PanelId::Inspector => {
            let len = state.token_fields[state.selected_token];
            let f = cycle_index(state.inspector_field, len, delta);
            state.inspector_field = f;
            state.close_source_picker();
        },
        PanelId::ProjectConfig | PanelId::ExportTargets | PanelId::EditorPreferences => {
            let fields = panel_fields(project, panel);
            let len = fields.len();
            let index = match panel {
                PanelId::ProjectConfig => state.project_field,
                PanelId::ExportTargets => state.export_field,
                _ => state.editor_field,
            };
            match step_selection(index, len, delta) {
                Some(i) => {
                    proof {
                        lemma_stepped_in_range(held_index(index, len), len, delta);
                    }
                    match panel {
                        PanelId::ProjectConfig => state.project_field = i,
                        PanelId::ExportTargets => state.export_field = i,
                        _ => state.editor_field = i,
                    }
                    state.status = Status::SelectedField(fields[i]);
                },
                None => {
                    state.status = Status::PanelNoEditableFields(panel);
                },
            }
        },
        PanelId::InteractionInspector => {
            state.interaction_inspector_scroll = scroll_shortcut_help(
                true,
                state.interaction_inspector_scroll,
                delta,
            );
        },
        _ => {
            state.status = Status::PanelNoListSelection(panel);
        },
    }
}

/// Committing the text input on configuration field `field`: the trimmed text is applied as
/// [`config_input_holds`] says; on success the input closes and the edit is reported,
/// otherwise the error is reported and the input stays open.
pub open spec fn commit_holds(
    s0: UiModel,
    p0: ProjectState,
    e0: EditorState,
    field: ConfigFieldId,
    buffer: Seq<char>,
    s1: UiModel,
    p1: ProjectState,
    e1: EditorState,
    effects: Seq<Effect>,
) -> bool {
    exists|r: Result<StatusMessage, StatusMessage>|
        #[trigger] config_input_holds(p0, e0, field, buffer, p1, e1, r) && match r {
            Ok(m) => s1 == (UiModel { status: Status::Config(m), ..closed_text_input(s0) })
                && effects == commit_effects(field),
            Err(m) => s1 == (UiModel { status: Status::Config(m), ..s0 }) && effects == Seq::<
                Effect,
            >::empty(),
        }
}

/// Activating the configuration field that the dialog or the active panel has selected: a
/// text field opens for editing, other fields change as [`activation_holds`] says.
pub open spec fn activation_step_holds(
    s0: UiModel,
    p0: ProjectState,
    e0: EditorState,
    s1: UiModel,
    p1: ProjectState,
    e1: EditorState,
    effects: Seq<Effect>,
) -> bool {
    match config_target(s0, p0.export_profiles@.len()) {
        None => s1 == s0 && effects == Seq::<Effect>::empty() && p1 == p0 && e1 == e0,
        Some(field) => exists|act: ConfigActivation|
            #[trigger] activation_holds(p0, e0, field, p1, e1, act) && match act {
                ConfigActivation::EditText { field: f, start } => s1 == text_input_opened(
                    s0,
                    f,
                    start@,
                ) && effects == Seq::<Effect>::empty(),
                ConfigActivation::Updated { status, save_editor_config } => s1 == (UiModel {
                    status: Status::Config(status),
                    ..s0
                }) && effects == (if save_editor_config {
                    seq![Effect::SaveEditorConfig]
                } else {
                    Seq::<Effect>::empty()
                }),
            },
    }
}

/// Moving the command palette's highlighted row by `delta` among the commands that match
/// its query (see [`palette_row_after`]).
pub open spec fn palette_move_holds(s0: UiModel, s1: UiModel, delta: i32) -> bool {
    match s0.command_palette {
        None => s1 == s0,
        Some((query, selected)) => exists|items: Seq<CommandItem>, r: Seq<CommandItem>|
            #![trigger is_command_list(items, active_panel(s0)), ranked_listing(items, lowered(trim(query)), r)]
            is_command_list(items, active_panel(s0)) && ranked_listing(items, lowered(trim(query)), r)
                && s1 == (UiModel {
                command_palette: Some((query, palette_row_after(selected, r.len(), delta) as usize)),
                ..s0
            }),
    }
}

/// Resetting: the interface is reset, the project gets back its first name and its default
/// export targets, and the front end resets the theme.
pub open spec fn reset_holds(
    s0: UiModel,
    e0: EditorState,
    s1: UiModel,
    p1: ProjectState,
    e1: EditorState,
    effects: Seq<Effect>,
) -> bool {
    &&& s1 == interface_reset(s0)
    &&& p1.name@ == "Untitled Theme"@
    &&& default_profiles(p1.export_profiles@)
    &&& e1 == e0
    &&& effects == seq![Effect::ResetTheme]
}

/// The intents that the navigation step handles.
pub open spec fn navigation_intent(intent: Intent) -> bool {
    intent is QuitRequested || intent is CycleWorkspaceTab || intent is SetWorkspaceTab
        || intent is FocusPanelByNumber || intent is FocusSurface || intent is SetInteractionMode
        || intent is MoveSelection || intent is SelectToken
}

/// The intents that the text-editing step handles.
pub open spec fn text_intent(intent: Intent) -> bool {
    intent is AppendTextInput || intent is BackspaceTextInput || intent is ClearTextInput
        || intent is CancelTextInput || intent is AppendSourcePickerFilter
        || intent is BackspaceSourcePickerFilter || intent is ClearSourcePickerFilter
        || intent is CloseSourcePicker
}

/// The intents that the dialog step handles.
pub open spec fn dialog_intent(intent: Intent) -> bool {
    intent is OpenConfigRequested || intent is CloseConfigRequested || intent is MoveConfigSelection
        || intent is OpenCommandPaletteRequested || intent is CloseCommandPaletteRequested
        || intent is AppendCommandPaletteQuery || intent is BackspaceCommandPaletteQuery
        || intent is ClearCommandPaletteQuery || intent is ToggleShortcutHelpRequested
        || intent is ScrollShortcutHelp
}

#[verifier::spinoff_prover]
fn step_navigation(state: &mut UiState, project: &ProjectState, intent: Intent) -> (effects: Vec<Effect>)
    requires
        ui_valid(old(state)@),
        3 * project.export_profiles.len() + 4 <= usize::MAX,
        update_fits(old(state)@, project.export_profiles@.len(), intent),
        navigation_intent(intent),
    ensures
        final(state)@ == ui_step(old(state)@, project.export_profiles@.len(), intent).0,
        effects@ == ui_step(old(state)@, project.export_profiles@.len(), intent).1,
        ui_valid(final(state)@),
{
    reveal(ui_step);
    match intent {
        Intent::QuitRequested => {
            state.should_quit = true;
        },
        Intent::CycleWorkspaceTab(_) => {
            if !state.transient_surface_open() {
                let tab = state.active_tab.next();
                state.set_workspace_tab(tab);
            }
        },
        Intent::SetWorkspaceTab(tab) => {
            if !state.transient_surface_open() {
                state.set_workspace_tab(tab);
            }
        },
        Intent::FocusPanelByNumber(number) => {
            if !state.transient_surface_open() {
                state.focus_panel_by_number(number);
            }
        },
        Intent::FocusSurface(surface) => {
            state.focus_surface(surface);
        },
        Intent::SetInteractionMode(mode) => {
            state.set_interaction_mode(mode);
        },
        Intent::MoveSelection(delta) => {
            if !state.transient_surface_open() {
                move_selection(state, project, delta);
            }
        },
        Intent::SelectToken(index) => {
            state.select_token(index);
        },
        _ => {},
    }
    Vec::new()
}

#[verifier::spinoff_prover]
fn step_text(state: &mut UiState, project: &ProjectState, intent: Intent) -> (effects: Vec<Effect>)
    requires
        ui_valid(old(state)@),
        text_intent(intent),
    ensures
        final(state)@ == ui_step(old(state)@, project.export_profiles@.len(), intent).0,
        effects@ == ui_step(old(state)@, project.export_profiles@.len(), intent).1,
        ui_valid(final(state)@),
{
    reveal(ui_step);
    match intent {
        Intent::AppendTextInput(c) => {
            state.append_text_input(c);
        },
        Intent::BackspaceTextInput => {
            match state.text_input.take() {
                Some(input) => {
                    let buffer = without_last(input.buffer);
                    state.text_input = Some(TextInputState { target: input.target, buffer });
                },
                None => {},
            }
        },
        Intent::ClearTextInput => {
            match state.text_input.take() {
                Some(input) => {
                    state.text_input = Some(TextInputState { target: input.target, buffer: String::new() });
                },
                None => {},
            }
        },
        Intent::CancelTextInput => {
            state.close_text_input();
            state.status = Status::InputCancelled;
        },
        Intent::AppendSourcePickerFilter(c) => {
            match state.source_picker.take() {
                Some(picker) => {
                    let mut filter = picker.filter;
                    push_char(&mut filter, c);
                    state.source_picker = Some(SourcePickerState { filter, selected: 0 });
                },
                None => {},
            }
        },
        Intent::BackspaceSourcePickerFilter => {
            match state.source_picker.take() {
                Some(picker) => {
                    let filter = without_last(picker.filter);
                    state.source_picker = Some(SourcePickerState { filter, selected: 0 });
                },
                None => {},
            }
        },
        Intent::ClearSourcePickerFilter => {
            if state.source_picker.is_some() {
                state.source_picker = Some(SourcePickerState { filter: String::new(), selected: 0 });
            }
        },
        Intent::CloseSourcePicker => {
            state.close_source_picker();
            state.status = Status::SourcePickerClosed;
        },
        _ => {},
    }
    Vec::new()
}

#[verifier::rlimit(60)]
#[verifier::spinoff_prover]
fn step_dialogs(state: &mut UiState, project: &ProjectState, intent: Intent) -> (effects: Vec<Effect>)
    requires
        ui_valid(old(state)@),
        3 * project.export_profiles.len() + 4 <= usize::MAX,
        update_fits(old(state)@, project.export_profiles@.len(), intent),
        dialog_intent(intent),
    ensures
        final(state)@ == ui_step(old(state)@, project.export_profiles@.len(), intent).0,
        effects@ == ui_step(old(state)@, project.export_profiles@.len(), intent).1,
        ui_valid(final(state)@),
{
    reveal(ui_step);
    match intent {
        Intent::OpenConfigRequested => {
            state.open_config();
        },
        Intent::CloseConfigRequested => {
            state.close_config_dialog();
        },
        Intent::MoveConfigSelection(delta) => {
            move_config_selection(&mut state.config_modal, project, delta);
        },
        Intent::OpenCommandPaletteRequested => {
            state.open_command_palette();
        },
        Intent::CloseCommandPaletteRequested => {
            state.close_palette();
        },
        Intent::AppendCommandPaletteQuery(c) => {
            match state.command_palette.take() {
                Some(palette) => {
                    let mut query = palette.query;
                    push_char(&mut query, c);
                    state.command_palette = Some(CommandPaletteState { query, selected: 0 });
                },
                None => {},
            }
        },
        Intent::BackspaceCommandPaletteQuery => {
            match state.command_palette.take() {
                Some(palette) => {
                    let query = without_last(palette.query);
                    state.command_palette = Some(CommandPaletteState { query, selected: 0 });
                },
                None => {},
            }
        },
        Intent::ClearCommandPaletteQuery => {
            if state.command_palette.is_some() {
                state.command_palette = Some(CommandPaletteState { query: String::new(), selected: 0 });
            }
        },
        Intent::ToggleShortcutHelpRequested => {
            state.toggle_shortcut_help();
        },
        Intent::ScrollShortcutHelp(delta) => {
            state.shortcut_help_scroll = scroll_shortcut_help(
                state.shortcut_help_open,
                state.shortcut_help_scroll,
                delta,
            );
        },
        _ => {},
    }
    Vec::new()
}

fn step_work(state: &UiState, project: &ProjectState, intent: Intent) -> (effects: Vec<Effect>)
    requires
        !navigation_intent(intent) && !text_intent(intent) && !dialog_intent(intent),
        interface_only(state@, intent),
    ensures
        state@ == ui_step(state@, project.export_profiles@.len(), intent).0,
        effects@ == ui_step(state@, project.export_profiles@.len(), intent).1,
{
    reveal(ui_step);
    match intent {
        Intent::AdjustControlByStep(delta) => if state.transient_surface_open() {
            Vec::new()
        } else {
            vec![Effect::AdjustControlByStep(delta)]
        },
        Intent::ActivateControl => if state.transient_surface_open() {
            Vec::new()
        } else {
            vec![Effect::ActivateControl]
        },
        Intent::CyclePreviewMode(delta) => if state.transient_surface_open() {
            Vec::new()
        } else {
            vec![Effect::CyclePreviewMode(delta)]
        },
        Intent::AdjustActiveNumericInputByStep(delta) => vec![Effect::AdjustActiveNumericInputByStep(delta)],
        Intent::SetPreviewCapture(on) => vec![Effect::SetPreviewCapture(on)],
        Intent::CommitTextInput => match &state.text_input {
            Some(input) => match input.target {
                TextInputTarget::Control(_) => vec![Effect::CommitControlInput],
                TextInputTarget::Config(_) => Vec::new(),
            },
            None => Vec::new(),
        },
        Intent::MoveSourcePickerSelection(delta) => vec![Effect::MoveSourcePickerSelection(delta)],
        Intent::ApplySourcePickerSelection => vec![Effect::ApplySourcePickerSelection],
        Intent::SaveProjectRequested => vec![Effect::SaveProject],
        Intent::LoadProjectRequested => vec![Effect::LoadProject],
        Intent::ExportThemeRequested => vec![Effect::ExportTheme],
        _ => Vec::new(),
    }
}

/// Commits the text input on a configuration field (see [`commit_holds`]).
fn commit_config_input(
    state: &mut UiState,
    project: &mut ProjectState,
    editor: &mut EditorState,
    field: ConfigFieldId,
    buffer: &String,
) -> (effects: Vec<Effect>)
    requires
        old(state)@.text_input is Some,
    ensures
        commit_holds(
            old(state)@,
            *old(project),
            *old(editor),
            field,
            buffer@,
            final(state)@,
            *final(project),
            *final(editor),
            effects@,
        ),
        final(state)@.token_fields == old(state)@.token_fields,
        final(state)@.selected_token == old(state)@.selected_token,
        final(state)@.selected_param == old(state)@.selected_param,
{
    let ghost p0 = *project;
    let ghost e0 = *editor;
    let r = apply_config_input(project, editor, field, buffer.as_str());
    assert(config_input_holds(p0, e0, field, buffer@, *project, *editor, r));
    match r {
        Ok(m) => {
            let ghost s0 = state@;
            state.close_text_input();
            state.status = Status::Config(m);
            assert(state@ == (UiModel { status: Status::Config(m), ..closed_text_input(s0) }));
            let effects = match field {
                ConfigFieldId::EditorProjectPath
                | ConfigFieldId::EditorKeymapPreset
                | ConfigFieldId::EditorLocale => vec![Effect::SaveEditorConfig],
                _ => Vec::new(),
            };
            assert(effects@ == commit_effects(field));
            assert(s0 == old(state)@);
            effects
        },
        Err(m) => {
            state.status = Status::Config(m);
            Vec::new()
        },
    }
}

/// Activates the configuration field that the dialog or the active panel has selected.
#[verifier::spinoff_prover]
fn activate_field(state: &mut UiState, project: &mut ProjectState, editor: &mut EditorState) -> (effects:
    Vec<Effect>)
    requires
        3 * old(project).export_profiles.len() + 4 <= usize::MAX,
    ensures
        final(state)@.token_fields == old(state)@.token_fields,
        final(state)@.selected_token == old(state)@.selected_token,
        final(state)@.selected_param == old(state)@.selected_param,
        activation_step_holds(
            old(state)@,
            *old(project),
            *old(editor),
            final(state)@,
            *final(project),
            *final(editor),
            effects@,
        ),
{
    let target = match &state.config_modal {
        Some(modal) => {
            let fields = config_fields(project);
            let last = fields.len() - 1;
            let i = if modal.selected_field < last { modal.selected_field } else { last };
            Some(fields[i])
        },
        None => {
            let panel = state.active_panel();
            let index = match panel {
                PanelId::ProjectConfig => state.project_field,
                PanelId::ExportTargets => state.export_field,
                _ => state.editor_field,
            };
            active_config_field(project, panel, index)
        },
    };
    assert(target == config_target(state@, project.export_profiles@.len()));
    match target {
        None => {
            assert(config_target(old(state)@, old(project).export_profiles@.len()) is None);
            let effects: Vec<Effect> = Vec::new();
            assert(state@ == old(state)@);
            assert(*project == *old(project));
            assert(*editor == *old(editor));
            assert(effects@ == Seq::<Effect>::empty());
            assert(activation_step_holds(old(state)@, *old(project), *old(editor), state@, *project, *editor, effects@));
            effects
        },
        Some(field) => {
            let ghost s0 = state@;
            let ghost p0 = *project;
            let ghost e0 = *editor;
            let act = activate_config_field(project, editor, field);
            let ghost act0 = act;
            assert(activation_holds(p0, e0, field, *project, *editor, act0));
            let effects = match act {
                ConfigActivation::EditText { field, start } => {
                    state.open_config_text_input(field, start);
                    Vec::new()
                },
                ConfigActivation::Updated { status, save_editor_config } => {
                    state.status = Status::Config(status);
                    if save_editor_config {
                        vec![Effect::SaveEditorConfig]
                    } else {
                        Vec::new()
                    }
                },
            };
            assert(match act0 {
                ConfigActivation::EditText { field: f, start } => state@ == text_input_opened(
                    s0,
                    f,
                    start@,
                ) && effects@ == Seq::<Effect>::empty(),
                ConfigActivation::Updated { status, save_editor_config } => state@ == (UiModel {
                    status: Status::Config(status),
                    ..s0
                }) && effects@ == (if save_editor_config {
                    seq![Effect::SaveEditorConfig]
                } else {
                    Seq::<Effect>::empty()
                }),
            });
            assert(s0 == old(state)@);
            effects
        },
    }
}

/// Moves the command palette's highlighted row (see [`palette_move_holds`]).
fn move_palette_row(state: &mut UiState, delta: i32)
    requires
        update_fits(old(state)@, 0, Intent::MoveCommandPaletteSelection(delta)),
    ensures
        palette_move_holds(old(state)@, final(state)@, delta),
        final(state)@.token_fields == old(state)@.token_fields,
        final(state)@.selected_token == old(state)@.selected_token,
        final(state)@.selected_param == old(state)@.selected_param,
{
    let panel = state.active_panel();
    match state.command_palette.take() {
        Some(palette) => {
            assert(old(state)@.command_palette == Some((palette.query@, palette.selected)));
            assert(panel == active_panel(old(state)@));
            assert forall|items: Seq<CommandItem>, r: Seq<CommandItem>|
                is_command_list(items, panel) && ranked_listing(
                    items,
                    lowered(trim(palette.query@)),
                    r,
                ) implies step_fits(palette.selected, r.len() as usize, delta) by {
                assert(palette_query(old(state)@) == palette.query@);
                assert(palette_selected(old(state)@) == palette.selected);
                assert(is_command_list(items, active_panel(old(state)@)));
                assert(ranked_listing(items, lowered(trim(palette_query(old(state)@))), r));
            }
            let mut palette = palette;
            move_palette_selection(&mut palette, panel, delta);
            state.command_palette = Some(palette);
        },
        None => {},
    }
}

/// Resets the interface and the project (see [`reset_holds`]).
fn reset(state: &mut UiState, project: &mut ProjectState) -> (effects: Vec<Effect>)
    ensures
        final(state)@ == interface_reset(old(state)@),
        final(project).name@ == "Untitled Theme"@,
        default_profiles(final(project).export_profiles@),
        effects@ == seq![Effect::ResetTheme],
{
    state.reset_interface();
    project.name = owned("Untitled Theme");
    project.export_profiles = default_export_profiles();
    vec![Effect::ResetTheme]
}

/// Carries out `intent` on the user interface, the project and the editor's settings, and
/// returns the work that the front end is to do.
///
/// Intents that change only the interface follow [`ui_step`]. Committing a configuration
/// field's text, activating a field, moving in the command palette and resetting follow
/// [`commit_holds`], [`activation_step_holds`], [`palette_move_holds`] and [`reset_holds`].
#[verifier::spinoff_prover]
pub fn update(
    state: &mut UiState,
    project: &mut ProjectState,
    editor: &mut EditorState,
    intent: Intent,
) -> (effects: Vec<Effect>)
    requires
        ui_valid(old(state)@),
        3 * old(project).export_profiles.len() + 4 <= usize::MAX,
        update_fits(old(state)@, old(project).export_profiles@.len(), intent),
    ensures
        ui_valid(final(state)@),
        interface_only(old(state)@, intent) ==> {
            &&& final(state)@ == ui_step(old(state)@, old(project).export_profiles@.len(), intent).0
            &&& effects@ == ui_step(old(state)@, old(project).export_profiles@.len(), intent).1
            &&& *final(project) == *old(project)
            &&& *final(editor) == *old(editor)
        },
        intent is CommitTextInput ==> (old(state)@.text_input matches Some(
            (TextInputTarget::Config(field), buffer),
        ) ==> commit_holds(
            old(state)@,
            *old(project),
            *old(editor),
            field,
            buffer,
            final(state)@,
            *final(project),
            *final(editor),
            effects@,
        )),
        intent is ActivateConfigField ==> activation_step_holds(
            old(state)@,
            *old(project),
            *old(editor),
            final(state)@,
            *final(project),
            *final(editor),
            effects@,
        ),
        intent matches Intent::MoveCommandPaletteSelection(delta) ==> {
            &&& palette_move_holds(old(state)@, final(state)@, delta)
            &&& *final(project) == *old(project)
            &&& *final(editor) == *old(editor)
            &&& effects@ == Seq::<Effect>::empty()
        },
        intent is ResetRequested ==> reset_holds(
            old(state)@,
            *old(editor),
            final(state)@,
            *final(project),
            *final(editor),
            effects@,
        ),
{
    match intent {
        Intent::QuitRequested
        | Intent::CycleWorkspaceTab(_)
        | Intent::SetWorkspaceTab(_)
        | Intent::FocusPanelByNumber(_)
        | Intent::FocusSurface(_)
        | Intent::SetInteractionMode(_)
        | Intent::MoveSelection(_)
        | Intent::SelectToken(_) => step_navigation(state, project, intent),
        Intent::AppendTextInput(_)
        | Intent::BackspaceTextInput
        | Intent::ClearTextInput
        | Intent::CancelTextInput
        | Intent::AppendSourcePickerFilter(_)
        | Intent::BackspaceSourcePickerFilter
        | Intent::ClearSourcePickerFilter
        | Intent::CloseSourcePicker => step_text(state, project, intent),
        Intent::OpenConfigRequested
        | Intent::CloseConfigRequested
        | Intent::MoveConfigSelection(_)
        | Intent::OpenCommandPaletteRequested
        | Intent::CloseCommandPaletteRequested
        | Intent::AppendCommandPaletteQuery(_)
        | Intent::BackspaceCommandPaletteQuery
        | Intent::ClearCommandPaletteQuery
        | Intent::ToggleShortcutHelpRequested
        | Intent::ScrollShortcutHelp(_) => step_dialogs(state, project, intent),
        Intent::ActivateConfigField => activate_field(state, project, editor),
        Intent::MoveCommandPaletteSelection(delta) => {
            move_palette_row(state, delta);
            Vec::new()
        },
        Intent::ResetRequested => reset(state, project),
        Intent::CommitTextInput => {
            let config_field = match &state.text_input {
                Some(input) => match input.target {
                    TextInputTarget::Config(field) => Some((field, input.buffer.clone())),
                    TextInputTarget::Control(_) => None,
                },
                None => None,
            };
            match config_field {
                Some((field, buffer)) => commit_config_input(state, project, editor, field, &buffer),
                None => step_work(state, project, intent),
            }
        },
        _ => step_work(state, project, intent),
    }
}

/// While a dialog, the text input, the source picker, the palette or the help is open,
/// switching tabs, focusing a panel by number, moving the selection and the colour work
/// change nothing and hand nothing on.
pub proof fn law_open_dialogs_hold_back_navigation(s: UiModel, n: nat, intent: Intent)
    requires
        transient_open(s),
        intent is CycleWorkspaceTab || intent is SetWorkspaceTab || intent is FocusPanelByNumber
            || intent is MoveSelection || intent is AdjustControlByStep || intent is ActivateControl
            || intent is CyclePreviewMode,
    ensures
        ui_step(s, n, intent) == (s, Seq::<Effect>::empty()),
{
    reveal(ui_step);
}

/// Switching to the other tab and back returns to the same tab and the same active panel:
/// each tab remembers its panel.
pub proof fn law_tab_round_trip_keeps_panels(s: UiModel)
    ensures
        tab_set(tab_set(s, other_tab(s.active_tab)), s.active_tab).active_tab == s.active_tab,
        active_panel(tab_set(tab_set(s, other_tab(s.active_tab)), s.active_tab)) == active_panel(s),
        tab_set(tab_set(s, other_tab(s.active_tab)), s.active_tab).theme_panel == s.theme_panel,
        tab_set(tab_set(s, other_tab(s.active_tab)), s.active_tab).project_panel == s.project_panel,
{
}

impl Status {
    /// The message that shows this status, if any.
    pub fn key(&self) -> (r: Option<UiText>)
        ensures
            r == status_key(*self),
    {
        match self {
            Status::Idle => None,
            Status::SwitchedTab { .. } => Some(UiText::StatusSwitchedTab),
            Status::FocusedPanel(_) => Some(UiText::StatusFocusedPanel),
            Status::TabOnlyHasPanels { .. } => Some(UiText::StatusTabOnlyHasPanels),
            Status::FocusedMainWindow | Status::FocusedSurface(_) => Some(UiText::StatusFocusedSurface),
            Status::SurfaceNavigationActive(_) => Some(UiText::StatusSurfaceNavigationActive),
            Status::SelectedToken(_) => Some(UiText::StatusSelectedToken),
            Status::SelectedParam(_) => Some(UiText::StatusSelectedParam),
            Status::SelectedField(_) => Some(UiText::StatusSelectedField),
            Status::PanelNoEditableFields(_) => Some(UiText::StatusPanelNoEditableFields),
            Status::PanelNoListSelection(_) => Some(UiText::StatusPanelNoListSelection),
            Status::InputCancelled => Some(UiText::StatusInputCancelled),
            Status::SourcePickerClosed => Some(UiText::StatusSourcePickerClosed),
            Status::ConfigOpened => Some(UiText::StatusConfigOpened),
            Status::ConfigClosed => Some(UiText::StatusConfigClosed),
            Status::HelpOpened => Some(UiText::StatusHelpOpened),
            Status::HelpClosed => Some(UiText::StatusHelpClosed),
            Status::InvalidCharacter { .. } => Some(UiText::StatusInvalidCharacter),
            Status::EditingText(_) => Some(UiText::StatusEditingText),
            Status::Config(m) => Some(m.key()),
        }
    }
}

/// The message that shows status `s`, if any.
pub open spec fn status_key(s: Status) -> Option<UiText> {
    match s {
        Status::Idle => None,
        Status::SwitchedTab { .. } => Some(UiText::StatusSwitchedTab),
        Status::FocusedPanel(_) => Some(UiText::StatusFocusedPanel),
        Status::TabOnlyHasPanels { .. } => Some(UiText::StatusTabOnlyHasPanels),
        Status::FocusedMainWindow | Status::FocusedSurface(_) => Some(UiText::StatusFocusedSurface),
        Status::SurfaceNavigationActive(_) => Some(UiText::StatusSurfaceNavigationActive),
        Status::SelectedToken(_) => Some(UiText::StatusSelectedToken),
        Status::SelectedParam(_) => Some(UiText::StatusSelectedParam),
        Status::SelectedField(_) => Some(UiText::StatusSelectedField),
        Status::PanelNoEditableFields(_) => Some(UiText::StatusPanelNoEditableFields),
        Status::PanelNoListSelection(_) => Some(UiText::StatusPanelNoListSelection),
        Status::InputCancelled => Some(UiText::StatusInputCancelled),
        Status::SourcePickerClosed => Some(UiText::StatusSourcePickerClosed),
        Status::ConfigOpened => Some(UiText::StatusConfigOpened),
        Status::ConfigClosed => Some(UiText::StatusConfigClosed),
        Status::HelpOpened => Some(UiText::StatusHelpOpened),
        Status::HelpClosed => Some(UiText::StatusHelpClosed),
        Status::InvalidCharacter { .. } => Some(UiText::StatusInvalidCharacter),
        Status::EditingText(_) => Some(UiText::StatusEditingText),
        Status::Config(m) => Some(message_view(m).0),
    }
}

/// Backspace removes exactly the last character of the source picker's filter, of the text
/// input's buffer and of the palette's query, keeping the rest of the state; on an empty
/// text it changes nothing. (Clearing, by contrast, empties the text.)
pub proof fn law_backspace_removes_one_character(s: UiModel, n: nat)
    ensures
        s.source_picker matches Some((f, sel)) ==> ui_step(s, n, Intent::BackspaceSourcePickerFilter).0
            == (UiModel {
            source_picker: Some((if f.len() > 0 { f.subrange(0, f.len() - 1) } else { f }, 0usize)),
            ..s
        }),
        s.text_input matches Some((t, b)) ==> ui_step(s, n, Intent::BackspaceTextInput).0 == (UiModel {
            text_input: Some((t, if b.len() > 0 { b.subrange(0, b.len() - 1) } else { b })),
            ..s
        }),
        s.command_palette matches Some((q, sel)) ==> ui_step(s, n, Intent::BackspaceCommandPaletteQuery).0
            == (UiModel {
            command_palette: Some((if q.len() > 0 { q.subrange(0, q.len() - 1) } else { q }, 0usize)),
            ..s
        }),
        s.source_picker matches Some((f, sel)) ==> ui_step(s, n, Intent::ClearSourcePickerFilter).0
            == (UiModel { source_picker: Some((Seq::<char>::empty(), 0usize)), ..s }),
        ui_step(s, n, Intent::BackspaceSourcePickerFilter).1 == Seq::<Effect>::empty(),
{
    reveal(ui_step);
    if let Some((f, sel)) = s.source_picker {
        if f.len() > 0 {
            assert(f.drop_last() =~= f.subrange(0, f.len() - 1));
        }
    }
    if let Some((t, b)) = s.text_input {
        if b.len() > 0 {
            assert(b.drop_last() =~= b.subrange(0, b.len() - 1));
        }
    }
    if let Some((q, sel)) = s.command_palette {
        if q.len() > 0 {
            assert(q.drop_last() =~= q.subrange(0, q.len() - 1));
        }
    }
}

/// With the source picker, the text input or the palette open, backspace and clear differ
/// whenever the text has two or more characters: backspace leaves all but one of them.
pub proof fn law_backspace_is_not_clear(s: UiModel, n: nat)
    requires
        s.source_picker matches Some((f, sel)) && f.len() >= 2,
    ensures
        ui_step(s, n, Intent::BackspaceSourcePickerFilter).0 != ui_step(s, n, Intent::ClearSourcePickerFilter).0,
{
    law_backspace_removes_one_character(s, n);
    if let Some((f, sel)) = s.source_picker {
        let kept = f.subrange(0, f.len() - 1);
        assert(kept.len() > 0);
        assert(kept != Seq::<char>::empty());
    }
}

} // verus!
