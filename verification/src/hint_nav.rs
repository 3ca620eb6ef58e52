use vstd::prelude::*;

use crate::interaction::state::{model_mode, InteractionMode, InteractionState};
use crate::interaction::surface::SurfaceId;
use crate::layout::{tab_panels, visible_panels_for_tab};
use crate::preview::PreviewMode;
use crate::ui_meta::{preview_mode_spec, workspace_tab_spec};
use crate::workspace::{PanelId, WorkspaceTab};

verus! {

/// Something that a hint letter jumps to.
#[derive(Debug, Clone, Copy, PartialEq, Eq, Structural)]
pub enum HintTarget {
    Panel { label: char, panel: PanelId },
    WorkspaceTab { label: char, tab: WorkspaceTab },
    PreviewTab { label: char, mode: PreviewMode },
}

impl HintTarget {
    /// The letter that selects the target.
    pub fn label(self) -> (r: char)
        ensures
            r == (match self {
                HintTarget::Panel { label, .. } => label,
                HintTarget::WorkspaceTab { label, .. } => label,
                HintTarget::PreviewTab { label, .. } => label,
            }),
    {
        match self {
            HintTarget::Panel { label, .. } => label,
            HintTarget::WorkspaceTab { label, .. } => label,
            HintTarget::PreviewTab { label, .. } => label,
        }
    }
}

/// The digit that labels the `n`-th panel (counting from 1).
pub open spec fn digit_label(n: int) -> char {
    (48 + n) as char
}

/// Digit hints for the first nine of `panels`, numbered from 1.
pub open spec fn panel_hints(panels: Seq<PanelId>) -> Seq<HintTarget> {
    let n = if panels.len() < 9 {
        panels.len() as int
    } else {
        9
    };
    Seq::new(n as nat, |i: int| HintTarget::Panel { label: digit_label(i + 1), panel: panels[i] })
}

/// The letter hints: both workspace tabs, then the preview tabs while the preview is shown.
pub open spec fn letter_hints(tab: WorkspaceTab) -> Seq<HintTarget> {
    seq![
        HintTarget::WorkspaceTab { label: 'a', tab: WorkspaceTab::Theme },
        HintTarget::WorkspaceTab { label: 'b', tab: WorkspaceTab::Project },
    ] + if tab_panels(tab).contains(PanelId::Preview) {
        seq![
            HintTarget::PreviewTab { label: 'c', mode: PreviewMode::Code },
            HintTarget::PreviewTab { label: 'd', mode: PreviewMode::Shell },
            HintTarget::PreviewTab { label: 'e', mode: PreviewMode::Lazygit },
        ]
    } else {
        Seq::empty()
    }
}

/// Every hint target of the main window while `tab` is active.
pub open spec fn hint_targets(tab: WorkspaceTab) -> Seq<HintTarget> {
    panel_hints(tab_panels(tab)) + letter_hints(tab)
}

/// The hint targets of the main window: a digit for each visible panel (up to nine), then a
/// letter for each workspace tab and, while the preview is shown, for each preview tab.
pub fn main_window_hint_targets(active_tab: WorkspaceTab) -> (r: Vec<HintTarget>)
    ensures
        r@ == hint_targets(active_tab),
{
    let panels = visible_panels_for_tab(active_tab);
    let mut targets: Vec<HintTarget> = Vec::new();
    let mut index: usize = 0;
    while index < panels.len()
        invariant
            index <= panels.len(),
            panels@ == tab_panels(active_tab),
            targets@ == panel_hints(panels@.take(index as int)),
        decreases panels.len() - index,
    {
        let ghost before = targets@;
        if index < 9 {
            let number: u8 = (index + 1) as u8;
            targets.push(HintTarget::Panel { label: (48u8 + number) as char, panel: panels[index] });
        }
        proof {
            let t = panels@.take(index + 1);
            assert(panels@.take(index as int) =~= t.take(index as int));
            assert(targets@ =~= panel_hints(t));
        }
        index = index + 1;
    }
    assert(panels@.take(panels.len() as int) =~= panels@);
    let mut next_letter: u8 = 97;
    let tabs = WorkspaceTab::all();
    let mut k: usize = 0;
    while k < 2
        invariant
            k <= 2,
            tabs@ == seq![WorkspaceTab::Theme, WorkspaceTab::Project],
            next_letter == 97 + k,
            targets@ == panel_hints(tab_panels(active_tab)) + letter_hints(active_tab).take(k as int),
            letter_hints(active_tab).len() >= 2,
        decreases 2 - k,
    {
        let spec = workspace_tab_spec(tabs[k]);
        if spec.hint_navigation {
            targets.push(HintTarget::WorkspaceTab { label: next_letter as char, tab: spec.id });
            next_letter = next_letter + 1;
        }
        assert(letter_hints(active_tab).take(k + 1) =~= letter_hints(active_tab).take(k as int).push(
            letter_hints(active_tab)[k as int],
        ));
        k = k + 1;
    }
    if contains_preview(&panels) {
        let modes = PreviewMode::all();
        let mut m: usize = 0;
        while m < 3
            invariant
                m <= 3,
                modes@ == seq![PreviewMode::Code, PreviewMode::Shell, PreviewMode::Lazygit],
                next_letter == 99 + m,
                tab_panels(active_tab).contains(PanelId::Preview),
                targets@ == panel_hints(tab_panels(active_tab)) + letter_hints(active_tab).take(
                    2 + m,
                ),
                letter_hints(active_tab).len() == 5,
            decreases 3 - m,
        {
            let spec = preview_mode_spec(modes[m]);
            if spec.hint_navigation {
                targets.push(HintTarget::PreviewTab { label: next_letter as char, mode: spec.id });
                next_letter = next_letter + 1;
            }
            assert(letter_hints(active_tab).take(2 + m + 1) =~= letter_hints(active_tab).take(
                2 + m,
            ).push(letter_hints(active_tab)[2 + m]));
            m = m + 1;
        }
        assert(letter_hints(active_tab).take(5) =~= letter_hints(active_tab));
    } else {
        assert(letter_hints(active_tab).take(2) =~= letter_hints(active_tab));
    }
    targets
}

fn contains_preview(panels: &Vec<PanelId>) -> (r: bool)
    ensures
        r == panels@.contains(PanelId::Preview),
{
    let mut i: usize = 0;
    while i < panels.len()
        invariant
            i <= panels.len(),
            forall|j: int| 0 <= j < i ==> panels@[j] != PanelId::Preview,
        decreases panels.len() - i,
    {
        if panels[i] == PanelId::Preview {
            return true;
        }
        i = i + 1;
    }
    false
}

/// Whether the main window shows its hint letters: scope navigation on the main window.
pub open spec fn hint_mode(interaction: InteractionState) -> bool {
    model_mode(interaction@) == InteractionMode::NavigateScope(SurfaceId::MainWindow)
}

fn is_main_window_hint_mode(interaction: &InteractionState) -> (r: bool)
    ensures
        r == hint_mode(*interaction),
{
    interaction.current_mode() == InteractionMode::NavigateScope(SurfaceId::MainWindow)
}

/// The hint letter of workspace tab `tab`, shown only while the main window is in hint mode.
pub fn workspace_tab_hint_label(
    active_tab: WorkspaceTab,
    interaction: &InteractionState,
    tab: WorkspaceTab,
) -> (r: Option<char>)
    ensures
        r == (if hint_mode(*interaction) {
            Some(
                match tab {
                    WorkspaceTab::Theme => 'a',
                    WorkspaceTab::Project => 'b',
                },
            )
        } else {
            None
        }),
{
    if !is_main_window_hint_mode(interaction) {
        return None;
    }
    let targets = main_window_hint_targets(active_tab);
    let ghost panels = panel_hints(tab_panels(active_tab));
    let ghost want: int = panels.len() + match tab {
        WorkspaceTab::Theme => 0int,
        WorkspaceTab::Project => 1int,
    };
    let mut i: usize = 0;
    while i < targets.len()
        invariant
            i <= targets.len(),
            targets@ == hint_targets(active_tab),
            panels == panel_hints(tab_panels(active_tab)),
            want == panels.len() + match tab {
                WorkspaceTab::Theme => 0int,
                WorkspaceTab::Project => 1int,
            },
            i <= want,
            hint_mode(*interaction),
            forall|j: int|
                0 <= j < i ==> !(#[trigger] targets@[j] matches HintTarget::WorkspaceTab { tab: t, .. }
                    && t == tab),
        decreases targets.len() - i,
    {
        assert(targets@[i as int] == (panels + letter_hints(active_tab))[i as int]);
        match targets[i] {
            HintTarget::WorkspaceTab { label, tab: candidate } => {
                if candidate == tab {
                    proof {
                        if (i as int) < panels.len() {
                            assert(panels[i as int] is Panel);
                        } else {
                            assert(targets@[i as int] == letter_hints(active_tab)[i - panels.len()]);
                        }
                    }
                    return Some(label);
                }
            },
            _ => {},
        }
        i = i + 1;
    }
    assert(targets@[want] == (panels + letter_hints(active_tab))[want]);
    None
}

/// The hint letter of preview tab `mode`, shown only while the main window is in hint mode
/// and the preview is visible.
pub fn preview_tab_hint_label(
    active_tab: WorkspaceTab,
    interaction: &InteractionState,
    mode: PreviewMode,
) -> (r: Option<char>)
    ensures
        r == (if hint_mode(*interaction) && tab_panels(active_tab).contains(PanelId::Preview) {
            Some(
                match mode {
                    PreviewMode::Code => 'c',
                    PreviewMode::Shell => 'd',
                    PreviewMode::Lazygit => 'e',
                },
            )
        } else {
            None
        }),
{
    if !is_main_window_hint_mode(interaction) {
        return None;
    }
    let targets = main_window_hint_targets(active_tab);
    let ghost panels = panel_hints(tab_panels(active_tab));
    let ghost shown = tab_panels(active_tab).contains(PanelId::Preview);
    let ghost want: int = panels.len() + 2 + match mode {
        PreviewMode::Code => 0int,
        PreviewMode::Shell => 1int,
        PreviewMode::Lazygit => 2int,
    };
    let mut i: usize = 0;
    while i < targets.len()
        invariant
            i <= targets.len(),
            targets@ == hint_targets(active_tab),
            panels == panel_hints(tab_panels(active_tab)),
            shown == tab_panels(active_tab).contains(PanelId::Preview),
            want == panels.len() + 2 + match mode {
                PreviewMode::Code => 0int,
                PreviewMode::Shell => 1int,
                PreviewMode::Lazygit => 2int,
            },
            shown ==> i <= want,
            hint_mode(*interaction),
            forall|j: int|
                0 <= j < i ==> !(#[trigger] targets@[j] matches HintTarget::PreviewTab { mode: m, .. }
                    && m == mode),
        decreases targets.len() - i,
    {
        assert(targets@[i as int] == (panels + letter_hints(active_tab))[i as int]);
        match targets[i] {
            HintTarget::PreviewTab { label, mode: candidate } => {
                if candidate == mode {
                    proof {
                        if (i as int) < panels.len() {
                            assert(panels[i as int] is Panel);
                        } else {
                            assert(targets@[i as int] == letter_hints(active_tab)[i - panels.len()]);
                        }
                    }
                    return Some(label);
                }
            },
            _ => {},
        }
        i = i + 1;
    }
    proof {
        if shown {
            assert(targets@[want] == (panels + letter_hints(active_tab))[want]);
        }
    }
    None
}

} // verus!
