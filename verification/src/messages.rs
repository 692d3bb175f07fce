//! The closed event vocabulary of the shell: navigation choices, the
//! messages the front end can dispatch, and the actions it is asked to
//! carry out in return.

use vstd::prelude::*;

verus! {

/// The single active sidebar choice; exactly one is active at a time.
#[derive(Clone, Copy, PartialEq, Eq, Structural, Debug)]
pub enum NavSelection {
    MapView,
    TacticalHud,
    ItemManager,
    LoadoutCatalogue,
    Wiki,
    Roadmap,
    Feedback,
}

/// One round of memory counters, sampled by the front end each tick and
/// handed in as plain values: system totals in bytes, and the resident
/// memory of the current process as the sampler reported it (0 when the
/// process could not be found).
#[derive(Clone, Copy, PartialEq, Eq, Structural, Debug)]
pub struct MemSample {
    pub system_total: u64,
    pub system_used: u64,
    pub process_resident: u64,
}

/// A discrete event dispatched to the state controller. Every variant is
/// handled synchronously; the ones not yet wired to any behaviour are
/// no-ops.
#[derive(Clone, Copy, PartialEq, Eq, Structural, Debug)]
pub enum Message {
    NavClicked(NavSelection),
    HideDonateBanner,
    HideNoticeBanner,
    OpenMapSettings,
    DonateKoFi,
    ChangeTheme,
    Exit,
    Tick(MemSample),
    TitleBarDragged,
}

/// What the front end must do after an update: nothing, terminate the
/// process, or hand the current drag gesture to the windowing layer.
#[derive(Clone, Copy, PartialEq, Eq, Structural, Debug)]
pub enum Action {
    Continue,
    Exit,
    DragWindow,
}

} // verus!
