use vstd::prelude::*;

pub mod diagnostics;
pub mod explorer;
pub mod flyout;
pub mod host;
pub mod layout;
pub mod media;
pub mod occupancy;
pub mod settings;
pub mod spectrum;
pub mod state;
pub mod taskbar;
pub mod text;
pub mod updater;
pub mod volume;

verus! {
} // verus!
