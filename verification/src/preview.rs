use vstd::prelude::*;

verus! {

/// What the preview panel shows.
#[derive(Debug, Clone, Copy, PartialEq, Eq, Hash, Structural)]
pub enum PreviewMode {
    Code,
    Shell,
    Lazygit,
}

impl PreviewMode {
    /// Every preview mode, in display order.
    pub fn all() -> (r: [PreviewMode; 3])
        ensures
            r@ == seq![PreviewMode::Code, PreviewMode::Shell, PreviewMode::Lazygit],
    {
        [PreviewMode::Code, PreviewMode::Shell, PreviewMode::Lazygit]
    }
}

} // verus!
