//! Application core for a sidebar-driven desktop shell: navigation state,
//! dismissible banners, a memory-usage readout, and a pure view composer.
//!
//! The crate holds the state machine and the layout model only; a thin
//! front end owns the window, the timer and the OS memory counters, feeds
//! events in as plain values, and renders the composed layout tree.

pub mod memory;
pub mod messages;
pub mod state;
pub mod view;

pub use messages::NavSelection;
