use vstd::prelude::*;

pub mod actions;
pub mod command_palette;
pub mod config;
pub mod controls;
pub mod editor_config;
pub mod export;
pub mod focus;
pub mod hint_nav;
pub mod i18n;
pub mod interaction;
pub mod layout;
pub mod params;
pub mod preview;
pub mod project_file;
pub mod snapshot;
pub mod state;
pub mod text;
pub mod text_input;
pub mod ui_meta;
pub mod ui;
pub mod update;
pub mod view;
pub mod workspace;

verus! {

} // verus!
