//! Verified core of the Papyrus terminal interface: panel focus, selection
//! bookkeeping, list navigation, fuzzy pickers, sorting, key mapping and the
//! application state machine.

pub mod panel;
pub mod text;
pub mod collections;
pub mod navigation;
pub mod paper;
pub mod sorting;
pub mod fuzzy;
pub mod picker;
pub mod scroll;
pub mod toc;
pub mod autocomplete;
pub mod selection;
pub mod decimal;
pub mod clock;
pub mod action;
pub mod keys;
pub mod keymap;
pub mod app;
pub mod search;
pub mod app_view;
pub mod app_nav;
pub mod app_data;
pub mod app_edit;
pub mod app_toc;
pub mod app_ops;
pub mod app_delete;
pub mod app_modal;
pub mod app_pick;
pub mod app_confirm;
pub mod dispatch;
pub mod display;
pub mod pending;

use vstd::prelude::*;

pub use panel::{ActivePanel, LayoutMode};

verus! {

/// Returns the current version of the TUI crate.
pub fn version() -> (v: &'static str)
    ensures
        v@ == "0.1.0"@,
{
    "0.1.0"
}

} // verus!
