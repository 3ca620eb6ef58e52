use vstd::prelude::*;

use crate::i18n::UiText;

verus! {

/// The panes that keyboard focus cycles through in the classic layout.
#[derive(Debug, Clone, Copy, PartialEq, Eq, Structural)]
pub enum FocusPane {
    Tokens,
    Params,
    Inspector,
}

/// Position of a pane in the focus cycle.
pub open spec fn pane_index(p: FocusPane) -> int {
    match p {
        FocusPane::Tokens => 0,
        FocusPane::Params => 1,
        FocusPane::Inspector => 2,
    }
}

impl FocusPane {
    /// The text key of the pane's name.
    pub fn label_text(self) -> (r: UiText)
        ensures
            r == match self {
                FocusPane::Tokens => UiText::FocusTokens,
                FocusPane::Params => UiText::FocusParams,
                FocusPane::Inspector => UiText::FocusInspector,
            },
    {
        match self {
            FocusPane::Tokens => UiText::FocusTokens,
            FocusPane::Params => UiText::FocusParams,
            FocusPane::Inspector => UiText::FocusInspector,
        }
    }

    /// The pane after `self` (Tokens, Params, Inspector, then Tokens again).
    pub fn next(self) -> (r: Self)
        ensures
            pane_index(r) == (pane_index(self) + 1) % 3,
    {
        match self {
            FocusPane::Tokens => FocusPane::Params,
            FocusPane::Params => FocusPane::Inspector,
            FocusPane::Inspector => FocusPane::Tokens,
        }
    }

    /// The pane before `self`.
    pub fn previous(self) -> (r: Self)
        ensures
            pane_index(r) == (pane_index(self) + 2) % 3,
    {
        match self {
            FocusPane::Tokens => FocusPane::Inspector,
            FocusPane::Params => FocusPane::Tokens,
            FocusPane::Inspector => FocusPane::Params,
        }
    }

    /// The pane's title.
    pub fn label(self) -> (r: &'static str)
        ensures
            r@ == (match self {
                FocusPane::Tokens => "Tokens"@,
                FocusPane::Params => "Params"@,
                FocusPane::Inspector => "Inspector"@,
            }),
    {
        match self {
            FocusPane::Tokens => "Tokens",
            FocusPane::Params => "Params",
            FocusPane::Inspector => "Inspector",
        }
    }
}

/// A pane is identified by its position in the cycle.
pub proof fn law_pane_index_identifies(a: FocusPane, b: FocusPane)
    ensures
        pane_index(a) == pane_index(b) ==> a == b,
        0 <= pane_index(a) < 3,
{
}

/// Moving to the next pane and back returns to the start, in both orders.
pub proof fn law_next_previous_inverse(p: FocusPane, n: FocusPane, q: FocusPane)
    requires
        pane_index(n) == (pane_index(p) + 1) % 3,
        pane_index(q) == (pane_index(n) + 2) % 3,
    ensures
        q == p,
{
}

} // verus!
