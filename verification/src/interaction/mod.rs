use vstd::prelude::*;

use crate::interaction::state::{model_mode, InteractionMode, InteractionState};
use crate::interaction::surface::SurfaceId;

pub mod state;
pub mod surface;
pub mod routing;
pub mod tree;

verus! {

/// The path along which input travels: the focus path (the main window when it is empty),
/// extended by the owner of an active capture unless the owner already ends it.
pub open spec fn effective_path(interaction: InteractionState) -> Seq<SurfaceId> {
    let base = if interaction@.focus_path.len() == 0 {
        seq![SurfaceId::AppRoot, SurfaceId::MainWindow]
    } else {
        interaction@.focus_path
    };
    match model_mode(interaction@) {
        InteractionMode::Capture { owner } => if base.last() != owner {
            base.push(owner)
        } else {
            base
        },
        _ => base,
    }
}

/// The path along which input travels (see [`effective_path`]).
pub fn effective_focus_path(interaction: &InteractionState) -> (r: Vec<SurfaceId>)
    ensures
        r@ == effective_path(*interaction),
{
    let mut path = if interaction.focus_path.len() == 0 {
        vec![SurfaceId::AppRoot, SurfaceId::MainWindow]
    } else {
        interaction.focus_path.clone()
    };
    match interaction.current_mode() {
        InteractionMode::Capture { owner } => {
            if path[path.len() - 1] != owner {
                path.push(owner);
            }
        },
        _ => {},
    }
    path
}

/// The surface at the end of the effective focus path.
pub fn effective_focus_surface(interaction: &InteractionState) -> (r: SurfaceId)
    ensures
        r == effective_path(*interaction).last(),
{
    let path = effective_focus_path(interaction);
    path[path.len() - 1]
}

/// Whether `owner` captures input: its capture mode is active and it ends the effective
/// focus path.
pub fn has_active_capture(interaction: &InteractionState, owner: SurfaceId) -> (r: bool)
    ensures
        r == (model_mode(interaction@) == InteractionMode::Capture { owner } && effective_path(
            *interaction,
        ).last() == owner),
{
    let active = match interaction.current_mode() {
        InteractionMode::Capture { owner: active_owner } => active_owner == owner,
        _ => false,
    };
    active && effective_focus_surface(interaction) == owner
}

/// While a surface captures input, the effective focus path ends at that surface.
pub proof fn law_capture_owner_ends_the_path(interaction: InteractionState, owner: SurfaceId)
    requires
        model_mode(interaction@) == (InteractionMode::Capture { owner }),
    ensures
        effective_path(interaction).last() == owner,
{
}

} // verus!
