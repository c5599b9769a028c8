//! Background core of a companion overlay: debounced detection of running
//! games and the window-style decisions that keep the overlay above them.

pub mod deep_link;
pub mod detector;
pub mod listing;
pub mod overlay;
pub mod profile;
pub mod snapshot;
pub mod style;
pub mod tracker;
pub mod window;
