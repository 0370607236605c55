//! Softveil: the decision logic of a software privacy filter.
use vstd::prelude::*;

pub mod text;
pub mod numeral;
pub mod display_config;
pub mod store;
pub mod app;
pub mod laws;
pub mod menu;
pub mod i18n;
pub mod platform;
pub mod display_report;
pub mod ai_detection;
pub mod hotkey;
pub mod benchmark;
pub mod tray;
pub mod events;
pub mod hotplug;
pub mod overlay;

verus! {

broadcast use vstd::std_specs::hash::group_hash_axioms;

} // verus!
