use vstd::prelude::*;

pub mod calendar;
pub mod changelog;
pub mod config;
pub mod crash;
pub mod format;
pub mod gpu_card;
pub mod history;
pub mod ipc;
pub mod layout;
pub mod release_notes;
pub mod text;
pub mod theme;
pub mod tooltips;
pub mod stats;
pub mod update;
pub mod update_modal;

verus! {

} // verus!
