use vstd::prelude::*;

use crate::interaction::surface::{panel_surface, SurfaceId};
use crate::workspace::PanelId;

verus! {

/// How input is currently routed.
#[derive(Debug, Clone, Copy, PartialEq, Eq, Structural)]
pub enum InteractionMode {
    /// Input goes to the focused surface and bubbles up.
    Normal,
    /// Arrow keys move between the children of the surface.
    NavigateChildren(SurfaceId),
    /// Letters jump to hinted targets inside the surface.
    NavigateScope(SurfaceId),
    /// Keys go straight to the owner (an embedded process).
    Capture { owner: SurfaceId },
    /// A dialog owned by the surface takes all input.
    Modal { owner: SurfaceId },
}

/// The surface that a mode belongs to.
pub open spec fn mode_owner(m: InteractionMode) -> Option<SurfaceId> {
    match m {
        InteractionMode::Normal => None,
        InteractionMode::NavigateChildren(s) => Some(s),
        InteractionMode::NavigateScope(s) => Some(s),
        InteractionMode::Capture { owner } => Some(owner),
        InteractionMode::Modal { owner } => Some(owner),
    }
}

/// The surface that a capture or modal mode pushed onto the focus path.
pub open spec fn focus_owner(m: InteractionMode) -> Option<SurfaceId> {
    match m {
        InteractionMode::Capture { owner } => Some(owner),
        InteractionMode::Modal { owner } => Some(owner),
        _ => None,
    }
}

/// Mathematical model of the interaction state.
pub struct InteractionModel {
    pub focus_path: Seq<SurfaceId>,
    pub modes: Seq<InteractionMode>,
}

/// Focus path and stack of input modes.
#[derive(Debug, Clone, PartialEq, Eq)]
pub struct InteractionState {
    /// From the application root down to the focused surface.
    pub focus_path: Vec<SurfaceId>,
    /// Active modes, outermost first.
    pub mode_stack: Vec<InteractionMode>,
}

impl View for InteractionState {
    type V = InteractionModel;

    open spec fn view(&self) -> InteractionModel {
        InteractionModel { focus_path: self.focus_path@, modes: self.mode_stack@ }
    }
}

/// The innermost active mode (`Normal` when the stack is empty).
pub open spec fn model_mode(s: InteractionModel) -> InteractionMode {
    if s.modes.len() == 0 {
        InteractionMode::Normal
    } else {
        s.modes.last()
    }
}

/// The surface at the end of the focus path (`MainWindow` when it is empty).
pub open spec fn model_focus(s: InteractionModel) -> SurfaceId {
    if s.focus_path.len() == 0 {
        SurfaceId::MainWindow
    } else {
        s.focus_path.last()
    }
}

/// `path` without its last surface when that surface is the one that `m` put there.
pub open spec fn release_focus(path: Seq<SurfaceId>, m: InteractionMode) -> Seq<SurfaceId> {
    if path.len() > 0 && focus_owner(m) == Some(path.last()) {
        path.drop_last()
    } else {
        path
    }
}

/// The state after pushing mode `m`.
pub open spec fn model_push(s: InteractionModel, m: InteractionMode) -> InteractionModel {
    InteractionModel { focus_path: s.focus_path, modes: s.modes.push(m) }
}

/// The state after popping the innermost mode.
pub open spec fn model_pop(s: InteractionModel) -> InteractionModel {
    if s.modes.len() == 0 {
        s
    } else {
        InteractionModel {
            focus_path: release_focus(s.focus_path, s.modes.last()),
            modes: s.modes.drop_last(),
        }
    }
}

/// Whether a mode differs from `m`.
pub open spec fn other_than(m: InteractionMode) -> spec_fn(InteractionMode) -> bool {
    |x: InteractionMode| x != m
}

/// The state after removing every occurrence of mode `m`.
pub open spec fn model_remove(s: InteractionModel, m: InteractionMode) -> InteractionModel {
    InteractionModel {
        focus_path: if s.modes.contains(m) {
            release_focus(s.focus_path, m)
        } else {
            s.focus_path
        },
        modes: s.modes.filter(other_than(m)),
    }
}

/// The modes after resetting the stack to `m` alone.
pub open spec fn set_modes(m: InteractionMode) -> Seq<InteractionMode> {
    if m == InteractionMode::Normal {
        Seq::empty()
    } else {
        seq![m]
    }
}

/// Whether some active mode belongs to `surface`.
pub open spec fn model_has_mode_for(s: InteractionModel, surface: SurfaceId) -> bool {
    exists|i: int| 0 <= i < s.modes.len() && mode_owner(#[trigger] s.modes[i]) == Some(surface)
}

impl InteractionState {
    /// Focus on `initial` inside the main window, in normal mode.
    pub fn new(initial: SurfaceId) -> (r: Self)
        ensures
            r@.focus_path == seq![SurfaceId::AppRoot, SurfaceId::MainWindow, initial],
            r@.modes == Seq::<InteractionMode>::empty(),
    {
        InteractionState {
            focus_path: vec![SurfaceId::AppRoot, SurfaceId::MainWindow, initial],
            mode_stack: Vec::new(),
        }
    }

    /// The focused surface.
    pub fn focused_surface(&self) -> (r: SurfaceId)
        ensures
            r == model_focus(self@),
    {
        if self.focus_path.len() == 0 {
            SurfaceId::MainWindow
        } else {
            self.focus_path[self.focus_path.len() - 1]
        }
    }

    /// The focused workspace surface (the end of the focus path).
    pub fn focused_workspace_surface(&self) -> (r: SurfaceId)
        ensures
            r == model_focus(self@),
    {
        self.focused_surface()
    }

    /// Puts the focus on the main window and keeps the active modes.
    pub fn set_focus_root_path(&mut self)
        ensures
            final(self)@.focus_path == seq![SurfaceId::AppRoot, SurfaceId::MainWindow],
            final(self)@.modes == old(self)@.modes,
    {
        self.focus_path = vec![SurfaceId::AppRoot, SurfaceId::MainWindow];
    }

    /// Focus the main window and leave every mode.
    pub fn focus_root(&mut self)
        ensures
            final(self)@.focus_path == seq![SurfaceId::AppRoot, SurfaceId::MainWindow],
            final(self)@.modes == Seq::<InteractionMode>::empty(),
    {
        self.focus_path.clear();
        self.focus_path.push(SurfaceId::AppRoot);
        self.focus_path.push(SurfaceId::MainWindow);
        self.mode_stack.clear();
        assert(self.focus_path@ =~= seq![SurfaceId::AppRoot, SurfaceId::MainWindow]);
    }

    /// Focus the surface of `panel` and leave every mode.
    pub fn focus_panel(&mut self, panel: PanelId)
        ensures
            final(self)@.focus_path == seq![
                SurfaceId::AppRoot,
                SurfaceId::MainWindow,
                panel_surface(panel),
            ],
            final(self)@.modes == Seq::<InteractionMode>::empty(),
    {
        self.focus_path.clear();
        self.focus_path.push(SurfaceId::AppRoot);
        self.focus_path.push(SurfaceId::MainWindow);
        self.focus_path.push(SurfaceId::workspace_surface(panel));
        self.mode_stack.clear();
        assert(self.focus_path@ =~= seq![
            SurfaceId::AppRoot,
            SurfaceId::MainWindow,
            panel_surface(panel),
        ]);
    }

    /// The active modes, outermost first.
    pub fn mode_stack(&self) -> (r: &Vec<InteractionMode>)
        ensures
            r@ == self@.modes,
    {
        &self.mode_stack
    }

    /// The innermost active mode.
    pub fn current_mode(&self) -> (r: InteractionMode)
        ensures
            r == model_mode(self@),
    {
        if self.mode_stack.len() == 0 {
            InteractionMode::Normal
        } else {
            self.mode_stack[self.mode_stack.len() - 1]
        }
    }

    /// Enters mode `mode` on top of the active ones.
    pub fn push_mode(&mut self, mode: InteractionMode)
        ensures
            final(self)@ == model_push(old(self)@, mode),
    {
        self.mode_stack.push(mode);
    }

    /// Enters mode `mode` unless it is already the innermost one, so that opening a dialog
    /// or a capture twice leaves one mode to close.
    pub fn push_mode_once(&mut self, mode: InteractionMode)
        ensures
            final(self)@ == model_push_once(old(self)@, mode),
    {
        if self.current_mode() != mode {
            self.push_mode(mode);
        }
    }

    /// Leaves the innermost mode; a capture or modal mode also takes its owner off the end of
    /// the focus path when the owner is there.
    pub fn pop_mode(&mut self)
        ensures
            final(self)@ == model_pop(old(self)@),
    {
        if let Some(mode) = self.mode_stack.pop() {
            self.release_focus_for(mode);
        }
    }

    fn release_focus_for(&mut self, mode: InteractionMode)
        ensures
            final(self)@.focus_path == release_focus(old(self)@.focus_path, mode),
            final(self)@.modes == old(self)@.modes,
    {
        let owner = match mode {
            InteractionMode::Capture { owner } => Some(owner),
            InteractionMode::Modal { owner } => Some(owner),
            _ => None,
        };
        if let Some(owner) = owner {
            let n = self.focus_path.len();
            if n > 0 && self.focus_path[n - 1] == owner {
                self.focus_path.pop();
            }
        }
    }

    /// Leaves every occurrence of mode `mode`, wherever it is in the stack.
    pub fn remove_mode(&mut self, mode: InteractionMode)
        ensures
            final(self)@ == model_remove(old(self)@, mode),
    {
        let ghost old_modes = self.mode_stack@;
        let ghost old_view = self@;
        let mut kept: Vec<InteractionMode> = Vec::new();
        let mut found = false;
        let mut i: usize = 0;
        while i < self.mode_stack.len()
            invariant
                i <= self.mode_stack.len(),
                self.mode_stack@ == old_modes,
                kept@ == old_modes.take(i as int).filter(other_than(mode)),
                found == old_modes.take(i as int).contains(mode),
            decreases self.mode_stack.len() - i,
        {
            let m = self.mode_stack[i];
            proof {
                let t = old_modes.take(i + 1);
                assert(t.drop_last() =~= old_modes.take(i as int));
                assert(t.last() == m);
                vstd::seq_lib::lemma_seq_contains_after_push(old_modes.take(i as int), m, mode);
                assert(t =~= old_modes.take(i as int).push(m));
            }
            if m != mode {
                kept.push(m);
            } else {
                found = true;
            }
            proof {
                let t = old_modes.take(i + 1);
                assert(t.drop_last() =~= old_modes.take(i as int));
                assert(t.filter(other_than(mode)) =~= if m != mode {
                    old_modes.take(i as int).filter(other_than(mode)).push(m)
                } else {
                    old_modes.take(i as int).filter(other_than(mode))
                }) by {
                    reveal_with_fuel(Seq::filter, 1);
                }
            }
            i = i + 1;
        }
        assert(old_modes.take(old_modes.len() as int) =~= old_modes);
        self.mode_stack = kept;
        if found {
            self.release_focus_for(mode);
        }
        assert(self@.modes =~= model_remove(old_view, mode).modes);
        assert(self@.focus_path =~= model_remove(old_view, mode).focus_path);
    }

    /// Replaces every active mode by `mode` (by none when `mode` is `Normal`).
    pub fn set_mode(&mut self, mode: InteractionMode)
        ensures
            final(self)@.focus_path == old(self)@.focus_path,
            final(self)@.modes == set_modes(mode),
    {
        self.mode_stack.clear();
        if mode != InteractionMode::Normal {
            self.mode_stack.push(mode);
        }
        assert(self.mode_stack@ =~= set_modes(mode));
    }

    /// Whether some active mode belongs to `surface`.
    pub fn has_mode_for(&self, surface: SurfaceId) -> (r: bool)
        ensures
            r == model_has_mode_for(self@, surface),
    {
        let mut i: usize = 0;
        while i < self.mode_stack.len()
            invariant
                i <= self.mode_stack.len(),
                forall|j: int| 0 <= j < i ==> mode_owner(#[trigger] self.mode_stack@[j]) != Some(surface),
            decreases self.mode_stack.len() - i,
        {
            let owner = match self.mode_stack[i] {
                InteractionMode::Normal => None,
                InteractionMode::NavigateChildren(s) => Some(s),
                InteractionMode::NavigateScope(s) => Some(s),
                InteractionMode::Capture { owner } => Some(owner),
                InteractionMode::Modal { owner } => Some(owner),
            };
            if owner == Some(surface) {
                return true;
            }
            i = i + 1;
        }
        false
    }
}

/// Entering a mode and leaving it again restores the mode stack, and the focus path too
/// `s` with `m` entered, unless `m` is already its innermost mode.
pub open spec fn model_push_once(s: InteractionModel, m: InteractionMode) -> InteractionModel {
    if model_mode(s) == m {
        s
    } else {
        model_push(s, m)
    }
}

/// Entering a mode once more while it is innermost changes nothing.
pub proof fn law_push_once_is_idempotent(s: InteractionModel, m: InteractionMode)
    ensures
        model_push_once(model_push_once(s, m), m) == model_push_once(s, m),
        model_mode(model_push_once(s, m)) == m,
{
}

/// unless the mode's owner is the focused surface.
pub proof fn law_push_then_pop_restores(s: InteractionModel, m: InteractionMode)
    ensures
        model_pop(model_push(s, m)).modes == s.modes,
        model_pop(model_push(s, m)).focus_path == release_focus(s.focus_path, m),
        (s.focus_path.len() == 0 || focus_owner(m) != Some(s.focus_path.last())) ==> model_pop(
            model_push(s, m),
        ) == s,
{
    assert(s.modes.push(m).drop_last() =~= s.modes);
}

/// The mode just entered is the current one, and its owner has a mode.
pub proof fn law_pushed_mode_is_current(s: InteractionModel, m: InteractionMode)
    ensures
        model_mode(model_push(s, m)) == m,
        mode_owner(m) matches Some(o) ==> model_has_mode_for(model_push(s, m), o),
{
    let t = model_push(s, m);
    assert(t.modes[t.modes.len() - 1] == m);
}

/// After removing a mode, no occurrence of it is left and the stack has not grown.
pub proof fn law_removed_mode_is_gone(s: InteractionModel, m: InteractionMode)
    ensures
        !model_remove(s, m).modes.contains(m),
        model_remove(s, m).modes.len() <= s.modes.len(),
{
    let r = model_remove(s, m).modes;
    s.modes.lemma_filter_len(other_than(m));
    if r.contains(m) {
        let i = choose|i: int| 0 <= i < r.len() && r[i] == m;
        s.modes.lemma_filter_pred(other_than(m), i);
    }
}

/// Setting a mode makes it the current one.
pub proof fn law_set_mode_is_current(s: InteractionModel, m: InteractionMode)
    ensures
        model_mode(InteractionModel { focus_path: s.focus_path, modes: set_modes(m) }) == m,
{
}

} // verus!
