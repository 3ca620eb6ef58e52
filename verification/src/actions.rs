use vstd::prelude::*;

use crate::editor_config::EditorKeymapPreset;
use crate::i18n::UiText;
use crate::text::{owned, push_char, push_str, str_eq};

verus! {

broadcast use vstd::string::group_string_axioms;

/// Actions that the menu bar and the help list name.
#[derive(Debug, Clone, Copy, PartialEq, Eq, Hash, Structural)]
pub enum ActionId {
    SwitchTabs,
    FocusPanels,
    MoveSelection,
    AdjustValue,
    Activate,
    Toggle,
    TypeInput,
    Filter,
    Nudge,
    Apply,
    Cancel,
    Clear,
    SwitchPreviewMode,
    CapturePreview,
    ReleasePreviewCapture,
    OpenConfig,
    OpenHelp,
    SaveProject,
    LoadProject,
    ExportTheme,
    Reset,
    Quit,
}

/// Actions that are bound to keys.
#[derive(Debug, Clone, Copy, PartialEq, Eq, Hash, Structural)]
pub enum BoundAction {
    PreviousTab,
    NextTab,
    MoveUp,
    MoveDown,
    MoveLeft,
    MoveRight,
    Activate,
    Toggle,
    Apply,
    Cancel,
    Clear,
    Backspace,
    ReleasePreviewCapture,
    OpenConfig,
    OpenHelp,
    SaveProject,
    LoadProject,
    ExportTheme,
    Reset,
    Quit,
}

/// A menu bar entry: an action, its shortcut and its label.
#[derive(Debug, Clone, PartialEq, Eq)]
pub struct ActionHint {
    pub id: ActionId,
    pub shortcut: String,
    pub label: String,
}

/// A titled group of the shortcut help.
#[derive(Debug, Clone, PartialEq, Eq)]
pub struct ActionHelpSection {
    pub title: String,
    pub entries: Vec<ActionHelpEntry>,
}

/// One line of the shortcut help.
#[derive(Debug, Clone, PartialEq, Eq)]
pub struct ActionHelpEntry {
    pub shortcut: String,
    pub label: String,
    pub description: String,
}

/// A key that an action can be bound to.
#[derive(Debug, Clone, Copy, PartialEq, Eq, Structural)]
pub enum KeyBinding {
    Char(char),
    Ctrl(char),
    Space,
    Enter,
    Esc,
    Left,
    Right,
    Up,
    Down,
    Backspace,
    Delete,
}

/// The key of a key press.
#[derive(Debug, Clone, Copy, PartialEq, Eq, Structural)]
pub enum KeyCode {
    Char(char),
    Enter,
    Esc,
    Left,
    Right,
    Up,
    Down,
    Backspace,
    Delete,
    /// Any key that no binding uses.
    Other,
}

/// A key press: the key and the modifiers held.
#[derive(Debug, Clone, Copy, PartialEq, Eq, Structural)]
pub struct KeyInput {
    pub code: KeyCode,
    pub control: bool,
    pub alt: bool,
    pub super_key: bool,
}

/// `c` lower-cased if it is an ASCII capital letter.
pub open spec fn ascii_lower(c: char) -> u32 {
    let u = c as u32;
    if 65 <= u <= 90 {
        (u + 32) as u32
    } else {
        u
    }
}

/// Whether binding `b` is triggered by `key`.
pub open spec fn binding_matches(b: KeyBinding, key: KeyInput) -> bool {
    let plain = !(key.control || key.alt || key.super_key);
    match b {
        KeyBinding::Char(ch) => plain && key.code == KeyCode::Char(ch),
        KeyBinding::Ctrl(ch) => key.control && (key.code matches KeyCode::Char(actual)
            && ascii_lower(actual) == ascii_lower(ch)),
        KeyBinding::Space => plain && key.code == KeyCode::Char(' '),
        KeyBinding::Enter => key.code == KeyCode::Enter,
        KeyBinding::Esc => key.code == KeyCode::Esc,
        KeyBinding::Left => key.code == KeyCode::Left,
        KeyBinding::Right => key.code == KeyCode::Right,
        KeyBinding::Up => key.code == KeyCode::Up,
        KeyBinding::Down => key.code == KeyCode::Down,
        KeyBinding::Backspace => key.code == KeyCode::Backspace,
        KeyBinding::Delete => key.code == KeyCode::Delete,
    }
}

/// The symbol of a binding in help text.
pub open spec fn binding_symbol(b: KeyBinding) -> Seq<char> {
    match b {
        KeyBinding::Char(ch) => if ch == '?' {
            "?"@
        } else if ch == '[' {
            "["@
        } else if ch == ']' {
            "]"@
        } else if ch == ' ' {
            "Space"@
        } else {
            ""@
        },
        KeyBinding::Ctrl(ch) => if ch == 'g' {
            "Ctrl+G"@
        } else {
            "Ctrl"@
        },
        KeyBinding::Space => "Space"@,
        KeyBinding::Enter => "Enter"@,
        KeyBinding::Esc => "Esc"@,
        KeyBinding::Left => "←"@,
        KeyBinding::Right => "→"@,
        KeyBinding::Up => "↑"@,
        KeyBinding::Down => "↓"@,
        KeyBinding::Backspace => "⌫"@,
        KeyBinding::Delete => "Del"@,
    }
}

/// How a binding reads in a shortcut label: plain characters stand for themselves.
pub open spec fn binding_text(b: KeyBinding) -> Seq<char> {
    match b {
        KeyBinding::Char(ch) => if ch == '?' || ch == '[' || ch == ']' {
            binding_symbol(b)
        } else {
            seq![ch]
        },
        _ => binding_symbol(b),
    }
}

impl KeyBinding {
    /// Whether the key press triggers this binding.
    pub fn matches(self, key: &KeyInput) -> (r: bool)
        ensures
            r == binding_matches(self, *key),
    {
        let plain = !(key.control || key.alt || key.super_key);
        match self {
            KeyBinding::Char(ch) => plain && key.code == KeyCode::Char(ch),
            KeyBinding::Ctrl(ch) => key.control && match key.code {
                KeyCode::Char(actual) => ascii_lower_exec(actual) == ascii_lower_exec(ch),
                _ => false,
            },
            KeyBinding::Space => plain && key.code == KeyCode::Char(' '),
            KeyBinding::Enter => key.code == KeyCode::Enter,
            KeyBinding::Esc => key.code == KeyCode::Esc,
            KeyBinding::Left => key.code == KeyCode::Left,
            KeyBinding::Right => key.code == KeyCode::Right,
            KeyBinding::Up => key.code == KeyCode::Up,
            KeyBinding::Down => key.code == KeyCode::Down,
            KeyBinding::Backspace => key.code == KeyCode::Backspace,
            KeyBinding::Delete => key.code == KeyCode::Delete,
        }
    }

    /// The symbol of the binding in help text.
    pub fn label(self) -> (r: &'static str)
        ensures
            r@ == binding_symbol(self),
    {
        match self {
            KeyBinding::Char(ch) => if ch == '?' {
                "?"
            } else if ch == '[' {
                "["
            } else if ch == ']' {
                "]"
            } else if ch == ' ' {
                "Space"
            } else {
                ""
            },
            KeyBinding::Ctrl(ch) => if ch == 'g' {
                "Ctrl+G"
            } else {
                "Ctrl"
            },
            KeyBinding::Space => "Space",
            KeyBinding::Enter => "Enter",
            KeyBinding::Esc => "Esc",
            KeyBinding::Left => "←",
            KeyBinding::Right => "→",
            KeyBinding::Up => "↑",
            KeyBinding::Down => "↓",
            KeyBinding::Backspace => "⌫",
            KeyBinding::Delete => "Del",
        }
    }
}

fn ascii_lower_exec(c: char) -> (r: u32)
    ensures
        r == ascii_lower(c),
{
    let u = c as u32;
    if 65 <= u && u <= 90 {
        u + 32
    } else {
        u
    }
}

/// The keys bound to `action` under `preset`.
pub open spec fn spec_bindings(preset: EditorKeymapPreset, action: BoundAction) -> Seq<KeyBinding> {
    let vim = preset == EditorKeymapPreset::Vim;
    match action {
        BoundAction::PreviousTab => seq![KeyBinding::Char('[')],
        BoundAction::NextTab => seq![KeyBinding::Char(']')],
        BoundAction::MoveUp => if vim {
            seq![KeyBinding::Up, KeyBinding::Char('k')]
        } else {
            seq![KeyBinding::Up]
        },
        BoundAction::MoveDown => if vim {
            seq![KeyBinding::Down, KeyBinding::Char('j')]
        } else {
            seq![KeyBinding::Down]
        },
        BoundAction::MoveLeft => if vim {
            seq![KeyBinding::Left, KeyBinding::Char('h')]
        } else {
            seq![KeyBinding::Left]
        },
        BoundAction::MoveRight => if vim {
            seq![KeyBinding::Right, KeyBinding::Char('l')]
        } else {
            seq![KeyBinding::Right]
        },
        BoundAction::Activate => if vim {
            seq![KeyBinding::Enter, KeyBinding::Char('i')]
        } else {
            seq![KeyBinding::Enter]
        },
        BoundAction::Toggle => seq![KeyBinding::Space],
        BoundAction::Apply => seq![KeyBinding::Enter],
        BoundAction::Cancel => seq![KeyBinding::Esc],
        BoundAction::Clear => seq![KeyBinding::Delete],
        BoundAction::Backspace => seq![KeyBinding::Backspace],
        BoundAction::ReleasePreviewCapture => seq![KeyBinding::Ctrl('g')],
        BoundAction::OpenConfig => seq![KeyBinding::Char('c')],
        BoundAction::OpenHelp => seq![KeyBinding::Char('?')],
        BoundAction::SaveProject => seq![KeyBinding::Char('s')],
        BoundAction::LoadProject => seq![KeyBinding::Char('o')],
        BoundAction::ExportTheme => seq![KeyBinding::Char('e')],
        BoundAction::Reset => seq![KeyBinding::Char('r')],
        BoundAction::Quit => seq![KeyBinding::Char('q')],
    }
}

/// The keys bound to `action` under `preset`.
pub fn bindings_for(preset: EditorKeymapPreset, action: BoundAction) -> (r: Vec<KeyBinding>)
    ensures
        r@ == spec_bindings(preset, action),
{
    let vim = preset == EditorKeymapPreset::Vim;
    let r = match action {
        BoundAction::PreviousTab => vec![KeyBinding::Char('[')],
        BoundAction::NextTab => vec![KeyBinding::Char(']')],
        BoundAction::MoveUp => if vim {
            vec![KeyBinding::Up, KeyBinding::Char('k')]
        } else {
            vec![KeyBinding::Up]
        },
        BoundAction::MoveDown => if vim {
            vec![KeyBinding::Down, KeyBinding::Char('j')]
        } else {
            vec![KeyBinding::Down]
        },
        BoundAction::MoveLeft => if vim {
            vec![KeyBinding::Left, KeyBinding::Char('h')]
        } else {
            vec![KeyBinding::Left]
        },
        BoundAction::MoveRight => if vim {
            vec![KeyBinding::Right, KeyBinding::Char('l')]
        } else {
            vec![KeyBinding::Right]
        },
        BoundAction::Activate => if vim {
            vec![KeyBinding::Enter, KeyBinding::Char('i')]
        } else {
            vec![KeyBinding::Enter]
        },
        BoundAction::Toggle => vec![KeyBinding::Space],
        BoundAction::Apply => vec![KeyBinding::Enter],
        BoundAction::Cancel => vec![KeyBinding::Esc],
        BoundAction::Clear => vec![KeyBinding::Delete],
        BoundAction::Backspace => vec![KeyBinding::Backspace],
        BoundAction::ReleasePreviewCapture => vec![KeyBinding::Ctrl('g')],
        BoundAction::OpenConfig => vec![KeyBinding::Char('c')],
        BoundAction::OpenHelp => vec![KeyBinding::Char('?')],
        BoundAction::SaveProject => vec![KeyBinding::Char('s')],
        BoundAction::LoadProject => vec![KeyBinding::Char('o')],
        BoundAction::ExportTheme => vec![KeyBinding::Char('e')],
        BoundAction::Reset => vec![KeyBinding::Char('r')],
        BoundAction::Quit => vec![KeyBinding::Char('q')],
    };
    assert(r@ =~= spec_bindings(preset, action));
    r
}

/// Whether `key` triggers `action` under `preset`.
pub fn matches_bound_action(preset: EditorKeymapPreset, action: BoundAction, key: &KeyInput) -> (r:
    bool)
    ensures
        r == exists|i: int|
            0 <= i < spec_bindings(preset, action).len() && binding_matches(
                #[trigger] spec_bindings(preset, action)[i],
                *key,
            ),
{
    let bindings = bindings_for(preset, action);
    let mut i: usize = 0;
    while i < bindings.len()
        invariant
            i <= bindings.len(),
            bindings@ == spec_bindings(preset, action),
            forall|j: int| 0 <= j < i ==> !binding_matches(#[trigger] bindings@[j], *key),
        decreases bindings.len() - i,
    {
        if bindings[i].matches(key) {
            return true;
        }
        i = i + 1;
    }
    false
}

/// The texts of `bs` joined by `/`.
pub open spec fn join_bindings(bs: Seq<KeyBinding>) -> Seq<char>
    decreases bs.len(),
{
    if bs.len() == 0 {
        Seq::empty()
    } else if bs.len() == 1 {
        binding_text(bs[0])
    } else {
        join_bindings(bs.drop_last()) + "/"@ + binding_text(bs.last())
    }
}

/// The shortcut label of `action` under `preset`, such as `↑/k`.
pub fn binding_label(preset: EditorKeymapPreset, action: BoundAction) -> (r: String)
    ensures
        r@ == join_bindings(spec_bindings(preset, action)),
{
    let bindings = bindings_for(preset, action);
    let mut out = String::new();
    let mut i: usize = 0;
    while i < bindings.len()
        invariant
            i <= bindings.len(),
            out@ == join_bindings(bindings@.take(i as int)),
        decreases bindings.len() - i,
    {
        let ghost before = out@;
        if i > 0 {
            push_char(&mut out, '/');
        }
        let b = bindings[i];
        match b {
            KeyBinding::Char(ch) => {
                if ch == '?' || ch == '[' || ch == ']' {
                    push_str(&mut out, b.label());
                } else {
                    push_char(&mut out, ch);
                }
            },
            _ => {
                push_str(&mut out, b.label());
            },
        }
        proof {
            let t = bindings@.take(i + 1);
            assert(t.drop_last() =~= bindings@.take(i as int));
            assert(t.last() == b);
            if i == 0 {
                assert(t.len() == 1);
                assert(out@ =~= binding_text(b));
            } else {
                assert(out@ =~= before + "/"@ + binding_text(b)) by {
                    reveal_strlit("/");
                }
            }
        }
        i = i + 1;
    }
    assert(bindings@.take(bindings@.len() as int) =~= bindings@);
    out
}

/// A menu bar entry.
pub fn hint(id: ActionId, shortcut: String, label: String) -> (r: ActionHint)
    ensures
        r.id == id,
        r.shortcut == shortcut,
        r.label == label,
{
    ActionHint { id, shortcut, label }
}

/// A line of the shortcut help.
pub fn entry(shortcut: String, label: String, description: String) -> (r: ActionHelpEntry)
    ensures
        r.shortcut == shortcut,
        r.label == label,
        r.description == description,
{
    ActionHelpEntry { shortcut, label, description }
}

/// The label of the tab-switching shortcut: `[/]` when the keys are the brackets.
pub open spec fn switch_tabs_text(preset: EditorKeymapPreset) -> Seq<char> {
    let p = join_bindings(spec_bindings(preset, BoundAction::PreviousTab));
    let n = join_bindings(spec_bindings(preset, BoundAction::NextTab));
    if p == "["@ && n == "]"@ {
        "[/]"@
    } else {
        p + "/"@ + n
    }
}

/// The label of the selection-moving keys.
pub open spec fn move_selection_text(preset: EditorKeymapPreset) -> Seq<char> {
    match preset {
        EditorKeymapPreset::Standard => "↑↓"@,
        EditorKeymapPreset::Vim => "↑↓/jk"@,
    }
}

/// The label of the value-adjusting keys.
pub open spec fn adjust_value_text(preset: EditorKeymapPreset) -> Seq<char> {
    match preset {
        EditorKeymapPreset::Standard => "←→"@,
        EditorKeymapPreset::Vim => "←→/hl"@,
    }
}

/// The label of the activation keys.
pub open spec fn activate_text(preset: EditorKeymapPreset) -> Seq<char> {
    match preset {
        EditorKeymapPreset::Standard => "Enter"@,
        EditorKeymapPreset::Vim => "Enter/i"@,
    }
}

/// The label of the tab-switching shortcut: `[/]` when the keys are the brackets.
pub fn switch_tabs_shortcut_label(preset: EditorKeymapPreset) -> (r: String)
    ensures
        r@ == switch_tabs_text(preset),
{
    let previous = binding_label(preset, BoundAction::PreviousTab);
    let next = binding_label(preset, BoundAction::NextTab);
    if str_eq(previous.as_str(), "[") && str_eq(next.as_str(), "]") {
        owned("[/]")
    } else {
        let mut out = previous;
        push_str(&mut out, "/");
        push_str(&mut out, next.as_str());
        out
    }
}

/// The label of the selection-moving keys.
pub fn move_selection_shortcut_label(preset: EditorKeymapPreset) -> (r: String)
    ensures
        r@ == move_selection_text(preset),
{
    match preset {
        EditorKeymapPreset::Standard => owned("↑↓"),
        EditorKeymapPreset::Vim => owned("↑↓/jk"),
    }
}

/// The label of the value-adjusting keys.
pub fn adjust_value_shortcut_label(preset: EditorKeymapPreset) -> (r: String)
    ensures
        r@ == adjust_value_text(preset),
{
    match preset {
        EditorKeymapPreset::Standard => owned("←→"),
        EditorKeymapPreset::Vim => owned("←→/hl"),
    }
}

/// The label of the activation keys.
pub fn activate_shortcut_label(preset: EditorKeymapPreset) -> (r: String)
    ensures
        r@ == activate_text(preset),
{
    match preset {
        EditorKeymapPreset::Standard => owned("Enter"),
        EditorKeymapPreset::Vim => owned("Enter/i"),
    }
}

/// Every key of the standard preset also works in the vim preset.
pub proof fn law_vim_keeps_standard_keys(action: BoundAction, key: KeyInput, i: int)
    requires
        0 <= i < spec_bindings(EditorKeymapPreset::Standard, action).len(),
        binding_matches(spec_bindings(EditorKeymapPreset::Standard, action)[i], key),
    ensures
        exists|j: int|
            0 <= j < spec_bindings(EditorKeymapPreset::Vim, action).len() && binding_matches(
                #[trigger] spec_bindings(EditorKeymapPreset::Vim, action)[j],
                key,
            ),
{
    assert(spec_bindings(EditorKeymapPreset::Vim, action)[i] == spec_bindings(
        EditorKeymapPreset::Standard,
        action,
    )[i]);
}

/// Both presets switch tabs with the bracket keys, so the label is `[/]`.
pub proof fn law_switch_tabs_label_is_brackets(preset: EditorKeymapPreset)
    ensures
        join_bindings(spec_bindings(preset, BoundAction::PreviousTab)) == "["@,
        join_bindings(spec_bindings(preset, BoundAction::NextTab)) == "]"@,
        switch_tabs_text(preset) == "[/]"@,
{
}

/// A line of the shortcut help with its texts still given as messages: the shortcut, and the
/// messages that give its label and its description.
#[derive(Debug, Clone, PartialEq, Eq)]
pub struct HelpEntryKeys {
    pub shortcut: String,
    pub label: UiText,
    pub description: UiText,
}

/// A section of the shortcut help with its texts still given as messages. The title of the
/// keymap section, `KeymapPresetTitle`, takes the label of the preset as its argument.
#[derive(Debug, Clone, PartialEq, Eq)]
pub struct HelpSectionKeys {
    pub title: UiText,
    pub entries: Vec<HelpEntryKeys>,
}

/// Model of a help line: shortcut, label message, description message.
pub open spec fn entry_view(e: HelpEntryKeys) -> (Seq<char>, UiText, UiText) {
    (e.shortcut@, e.label, e.description)
}

/// Model of a help section: title message and the models of its lines.
pub open spec fn section_view(s: HelpSectionKeys) -> (UiText, Seq<(Seq<char>, UiText, UiText)>) {
    (s.title, s.entries@.map_values(|e: HelpEntryKeys| entry_view(e)))
}

/// The shortcut label of a bound action.
pub open spec fn bound_text(preset: EditorKeymapPreset, action: BoundAction) -> Seq<char> {
    join_bindings(spec_bindings(preset, action))
}

/// The shortcut help for `preset`: global commands, workspace navigation, the preview,
/// pickers and inputs, and the keymap itself.
pub open spec fn help_layout(preset: EditorKeymapPreset) -> Seq<(UiText, Seq<(Seq<char>, UiText, UiText)>)> {
    seq![
        (UiText::HelpSectionGlobal, seq![
            (bound_text(preset, BoundAction::OpenHelp), UiText::HelpShortcutHelpLabel, UiText::HelpShortcutHelpDesc),
            (bound_text(preset, BoundAction::OpenConfig), UiText::HelpConfigLabel, UiText::HelpConfigDesc),
            (bound_text(preset, BoundAction::SaveProject), UiText::HelpSaveProjectLabel, UiText::HelpSaveProjectDesc),
            (bound_text(preset, BoundAction::LoadProject), UiText::HelpLoadProjectLabel, UiText::HelpLoadProjectDesc),
            (bound_text(preset, BoundAction::ExportTheme), UiText::HelpExportLabel, UiText::HelpExportDesc),
            (bound_text(preset, BoundAction::Reset), UiText::HelpResetLabel, UiText::HelpResetDesc),
            (bound_text(preset, BoundAction::Quit), UiText::HelpQuitLabel, UiText::HelpQuitDesc),
        ]),
        (UiText::HelpSectionWorkspace, seq![
            (switch_tabs_text(preset), UiText::HelpSwitchTabsLabel, UiText::HelpSwitchTabsDesc),
            ("1-9"@, UiText::HelpFocusPanelLabel, UiText::HelpFocusPanelDesc),
            (move_selection_text(preset), UiText::HelpMoveSelectionLabel, UiText::HelpMoveSelectionDesc),
            (adjust_value_text(preset), UiText::HelpAdjustValueLabel, UiText::HelpAdjustValueDesc),
            (activate_text(preset), UiText::HelpActivateLabel, UiText::HelpActivateDesc),
        ]),
        (UiText::HelpSectionPreview, seq![
            (switch_tabs_text(preset), UiText::HelpPreviewModeLabel, UiText::HelpPreviewModeDesc),
            (activate_text(preset), UiText::HelpPreviewCaptureLabel, UiText::HelpPreviewCaptureDesc),
            (bound_text(preset, BoundAction::ReleasePreviewCapture), UiText::HelpPreviewReleaseLabel, UiText::HelpPreviewReleaseDesc),
        ]),
        (UiText::HelpSectionPickerInput, seq![
            ("type"@, UiText::HelpTypeFilterLabel, UiText::HelpTypeFilterDesc),
            (bound_text(preset, BoundAction::Backspace), UiText::HelpDeleteBackwardLabel, UiText::HelpDeleteBackwardDesc),
            (bound_text(preset, BoundAction::Clear), UiText::HelpClearLabel, UiText::HelpClearDesc),
            (adjust_value_text(preset), UiText::HelpNudgeNumericLabel, UiText::HelpNudgeNumericDesc),
            (bound_text(preset, BoundAction::Apply), UiText::HelpApplyLabel, UiText::HelpApplyDesc),
            (bound_text(preset, BoundAction::Cancel), UiText::HelpCancelLabel, UiText::HelpCancelDesc),
        ]),
        (UiText::KeymapPresetTitle, seq![
            match preset {
                EditorKeymapPreset::Standard => ("arrows + enter"@, UiText::KeymapStandardLabel, UiText::KeymapStandardDesc),
                EditorKeymapPreset::Vim => ("arrows + hjkl + i"@, UiText::KeymapVimLabel, UiText::KeymapVimDesc),
            },
        ]),
    ]
}

fn help_line(shortcut: String, label: UiText, description: UiText) -> (r: HelpEntryKeys)
    ensures
        entry_view(r) == (shortcut@, label, description),
{
    HelpEntryKeys { shortcut, label, description }
}

fn help_section(title: UiText, entries: Vec<HelpEntryKeys>, Ghost(lines): Ghost<Seq<(Seq<char>, UiText, UiText)>>) -> (r: HelpSectionKeys)
    requires
        entries@.len() == lines.len(),
        forall|i: int| 0 <= i < lines.len() ==> entry_view(#[trigger] entries@[i]) == lines[i],
    ensures
        section_view(r) == (title, lines),
{
    let r = HelpSectionKeys { title, entries };
    assert(r.entries@.map_values(|e: HelpEntryKeys| entry_view(e)) =~= lines);
    r
}

/// The shortcut help for `preset`, with each text given by its message (see [`help_layout`]).
pub fn shortcut_help_layout(preset: EditorKeymapPreset) -> (r: Vec<HelpSectionKeys>)
    ensures
        r@.map_values(|s: HelpSectionKeys| section_view(s)) == help_layout(preset),
{
    let ghost layout = help_layout(preset);
    let global = vec![
        help_line(binding_label(preset, BoundAction::OpenHelp), UiText::HelpShortcutHelpLabel, UiText::HelpShortcutHelpDesc),
        help_line(binding_label(preset, BoundAction::OpenConfig), UiText::HelpConfigLabel, UiText::HelpConfigDesc),
        help_line(binding_label(preset, BoundAction::SaveProject), UiText::HelpSaveProjectLabel, UiText::HelpSaveProjectDesc),
        help_line(binding_label(preset, BoundAction::LoadProject), UiText::HelpLoadProjectLabel, UiText::HelpLoadProjectDesc),
        help_line(binding_label(preset, BoundAction::ExportTheme), UiText::HelpExportLabel, UiText::HelpExportDesc),
        help_line(binding_label(preset, BoundAction::Reset), UiText::HelpResetLabel, UiText::HelpResetDesc),
        help_line(binding_label(preset, BoundAction::Quit), UiText::HelpQuitLabel, UiText::HelpQuitDesc),
    ];
    let s0 = help_section(UiText::HelpSectionGlobal, global, Ghost(layout[0].1));
    let workspace = vec![
        help_line(switch_tabs_shortcut_label(preset), UiText::HelpSwitchTabsLabel, UiText::HelpSwitchTabsDesc),
        help_line(owned("1-9"), UiText::HelpFocusPanelLabel, UiText::HelpFocusPanelDesc),
        help_line(move_selection_shortcut_label(preset), UiText::HelpMoveSelectionLabel, UiText::HelpMoveSelectionDesc),
        help_line(adjust_value_shortcut_label(preset), UiText::HelpAdjustValueLabel, UiText::HelpAdjustValueDesc),
        help_line(activate_shortcut_label(preset), UiText::HelpActivateLabel, UiText::HelpActivateDesc),
    ];
    let s1 = help_section(UiText::HelpSectionWorkspace, workspace, Ghost(layout[1].1));
    let preview = vec![
        help_line(switch_tabs_shortcut_label(preset), UiText::HelpPreviewModeLabel, UiText::HelpPreviewModeDesc),
        help_line(activate_shortcut_label(preset), UiText::HelpPreviewCaptureLabel, UiText::HelpPreviewCaptureDesc),
        help_line(binding_label(preset, BoundAction::ReleasePreviewCapture), UiText::HelpPreviewReleaseLabel, UiText::HelpPreviewReleaseDesc),
    ];
    let s2 = help_section(UiText::HelpSectionPreview, preview, Ghost(layout[2].1));
    let picker = vec![
        help_line(owned("type"), UiText::HelpTypeFilterLabel, UiText::HelpTypeFilterDesc),
        help_line(binding_label(preset, BoundAction::Backspace), UiText::HelpDeleteBackwardLabel, UiText::HelpDeleteBackwardDesc),
        help_line(binding_label(preset, BoundAction::Clear), UiText::HelpClearLabel, UiText::HelpClearDesc),
        help_line(adjust_value_shortcut_label(preset), UiText::HelpNudgeNumericLabel, UiText::HelpNudgeNumericDesc),
        help_line(binding_label(preset, BoundAction::Apply), UiText::HelpApplyLabel, UiText::HelpApplyDesc),
        help_line(binding_label(preset, BoundAction::Cancel), UiText::HelpCancelLabel, UiText::HelpCancelDesc),
    ];
    let s3 = help_section(UiText::HelpSectionPickerInput, picker, Ghost(layout[3].1));
    let keymap = vec![
        match preset {
            EditorKeymapPreset::Standard => help_line(owned("arrows + enter"), UiText::KeymapStandardLabel, UiText::KeymapStandardDesc),
            EditorKeymapPreset::Vim => help_line(owned("arrows + hjkl + i"), UiText::KeymapVimLabel, UiText::KeymapVimDesc),
        },
    ];
    let s4 = help_section(UiText::KeymapPresetTitle, keymap, Ghost(layout[4].1));
    let r = vec![s0, s1, s2, s3, s4];
    assert(r@.map_values(|s: HelpSectionKeys| section_view(s)) =~= layout);
    r
}

/// A menu bar entry with its label still given as a message.
#[derive(Debug, Clone, PartialEq, Eq)]
pub struct MenuHintKeys {
    pub id: ActionId,
    pub shortcut: String,
    pub label: UiText,
}

/// Model of a menu bar entry: action, shortcut and label message.
pub open spec fn menu_view(h: MenuHintKeys) -> (ActionId, Seq<char>, UiText) {
    (h.id, h.shortcut@, h.label)
}

/// The menu bar for `preset`: tabs, panels, editing, help and configuration.
pub open spec fn menu_layout(preset: EditorKeymapPreset) -> Seq<(ActionId, Seq<char>, UiText)> {
    seq![
        (ActionId::SwitchTabs, switch_tabs_text(preset), UiText::MenuTabs),
        (ActionId::FocusPanels, "1-9"@, UiText::MenuPanels),
        (ActionId::Activate, activate_text(preset), UiText::MenuEdit),
        (ActionId::OpenHelp, bound_text(preset, BoundAction::OpenHelp), UiText::MenuHelp),
        (ActionId::OpenConfig, bound_text(preset, BoundAction::OpenConfig), UiText::MenuConfig),
    ]
}

fn menu_hint(id: ActionId, shortcut: String, label: UiText) -> (r: MenuHintKeys)
    ensures
        menu_view(r) == (id, shortcut@, label),
{
    MenuHintKeys { id, shortcut, label }
}

/// The entries of the menu bar for `preset`, with their labels given by message (see
/// [`menu_layout`]).
pub fn menu_bar_layout(preset: EditorKeymapPreset) -> (r: Vec<MenuHintKeys>)
    ensures
        r@.map_values(|h: MenuHintKeys| menu_view(h)) == menu_layout(preset),
{
    let r = vec![
        menu_hint(ActionId::SwitchTabs, switch_tabs_shortcut_label(preset), UiText::MenuTabs),
        menu_hint(ActionId::FocusPanels, owned("1-9"), UiText::MenuPanels),
        menu_hint(ActionId::Activate, activate_shortcut_label(preset), UiText::MenuEdit),
        menu_hint(ActionId::OpenHelp, binding_label(preset, BoundAction::OpenHelp), UiText::MenuHelp),
        menu_hint(ActionId::OpenConfig, binding_label(preset, BoundAction::OpenConfig), UiText::MenuConfig),
    ];
    assert(r@.map_values(|h: MenuHintKeys| menu_view(h)) =~= menu_layout(preset));
    r
}

/// A plain-character binding (and the space bar) fires only when no modifier is held: with
/// Ctrl, Alt or Super down, no `Char` or `Space` binding matches, whatever the key.
pub proof fn law_plain_bindings_ignore_modified_keys(ch: char, key: KeyInput)
    ensures
        (key.control || key.alt || key.super_key) ==> !binding_matches(KeyBinding::Char(ch), key),
        (key.control || key.alt || key.super_key) ==> !binding_matches(KeyBinding::Space, key),
        binding_matches(
            KeyBinding::Char(ch),
            (KeyInput { code: KeyCode::Char(ch), control: false, alt: false, super_key: false }),
        ),
{
}

/// With a modifier held, an action whose bindings are all plain characters is never
/// triggered: Ctrl+S does not save through the plain `s` binding, for instance.
pub proof fn law_modified_keys_skip_plain_bindings(
    preset: EditorKeymapPreset,
    action: BoundAction,
    key: KeyInput,
)
    requires
        key.control || key.alt || key.super_key,
        forall|i: int|
            0 <= i < spec_bindings(preset, action).len() ==> #[trigger] spec_bindings(preset, action)[i] is Char,
    ensures
        !(exists|i: int|
            0 <= i < spec_bindings(preset, action).len() && binding_matches(
                #[trigger] spec_bindings(preset, action)[i],
                key,
            )),
{
}

/// A Ctrl binding fires only with Ctrl held, and then for its letter in either case:
/// Ctrl+S and Ctrl+Shift+S both trigger `Ctrl('s')`.
pub proof fn law_ctrl_bindings_need_ctrl(ch: char, key: KeyInput)
    ensures
        !key.control ==> !binding_matches(KeyBinding::Ctrl(ch), key),
        key.control && key.code == KeyCode::Char(ch) ==> binding_matches(KeyBinding::Ctrl(ch), key),
        key.control && ('a' <= ch && ch <= 'z') && (key.code matches KeyCode::Char(c) && (c as u32)
            + 32 == (ch as u32)) ==> binding_matches(KeyBinding::Ctrl(ch), key),
{
}

} // verus!
