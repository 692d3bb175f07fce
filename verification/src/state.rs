//! The state store and its message-driven controller: one mutable state
//! object, a total transition function over the closed event set, and the
//! laws of the banner flags.

use vstd::prelude::*;

use crate::memory::{format_ram_text, initial_ram_text, spec_initial_ram_text, spec_ram_text};
use crate::messages::{Action, Message, NavSelection};

verus! {

/// The mathematical image of the application state: what [`AppState`]
/// holds, with the readout as a sequence of characters.
pub struct StateModel {
    pub active_nav: NavSelection,
    pub show_donate_banner: bool,
    pub show_notice_banner: bool,
    pub ram_display: Seq<char>,
}

/// The one top-level mutable state object: the active navigation
/// selection, the two banner-visibility flags, and the current memory
/// readout.
pub struct AppState {
    pub active_nav: NavSelection,
    pub show_donate_banner: bool,
    pub show_notice_banner: bool,
    pub ram_display: String,
}

impl View for AppState {
    type V = StateModel;

    open spec fn view(&self) -> StateModel {
        StateModel {
            active_nav: self.active_nav,
            show_donate_banner: self.show_donate_banner,
            show_notice_banner: self.show_notice_banner,
            ram_display: self.ram_display@,
        }
    }
}

/// The state at launch: the map pane is active, both banners show, and
/// the readout holds its placeholder text.
pub open spec fn spec_initial_state() -> StateModel {
    StateModel {
        active_nav: NavSelection::MapView,
        show_donate_banner: true,
        show_notice_banner: true,
        ram_display: spec_initial_ram_text(),
    }
}

/// One transition of the state machine: at most one field moves, and
/// events not yet wired to any behaviour leave the state as it was.
pub open spec fn spec_step(s: StateModel, msg: Message) -> StateModel {
    match msg {
        Message::NavClicked(v) => StateModel {
            active_nav: v,
            show_donate_banner: s.show_donate_banner,
            show_notice_banner: s.show_notice_banner,
            ram_display: s.ram_display,
        },
        Message::HideDonateBanner => StateModel {
            active_nav: s.active_nav,
            show_donate_banner: false,
            show_notice_banner: s.show_notice_banner,
            ram_display: s.ram_display,
        },
        Message::HideNoticeBanner => StateModel {
            active_nav: s.active_nav,
            show_donate_banner: s.show_donate_banner,
            show_notice_banner: false,
            ram_display: s.ram_display,
        },
        Message::Tick(sample) => StateModel {
            active_nav: s.active_nav,
            show_donate_banner: s.show_donate_banner,
            show_notice_banner: s.show_notice_banner,
            ram_display: spec_ram_text(sample),
        },
        _ => s,
    }
}

/// What the front end is asked to do for each event: exit for the close
/// button, a window drag for the titlebar, nothing otherwise.
pub open spec fn spec_action(msg: Message) -> Action {
    match msg {
        Message::Exit => Action::Exit,
        Message::TitleBarDragged => Action::DragWindow,
        _ => Action::Continue,
    }
}

/// The state after a whole sequence of events, first event first.
pub open spec fn spec_run(s: StateModel, msgs: Seq<Message>) -> StateModel
    decreases msgs.len(),
{
    if msgs.len() == 0 {
        s
    } else {
        spec_run(spec_step(s, msgs[0]), msgs.drop_first())
    }
}

/// Law: dispatching a navigation click selects exactly the clicked
/// entry, whatever was selected before.
pub proof fn lemma_nav_click_selects(s: StateModel, v: NavSelection)
    ensures
        spec_step(s, Message::NavClicked(v)).active_nav == v,
{
}

/// Law: dismissing a banner clears its flag, and a cleared flag stays
/// cleared under every later event — no event of the closed set sets a
/// banner flag back to true.
pub proof fn lemma_dismissed_banner_stays_hidden(s: StateModel, msgs: Seq<Message>)
    ensures
        !spec_step(s, Message::HideDonateBanner).show_donate_banner,
        !spec_step(s, Message::HideNoticeBanner).show_notice_banner,
        !s.show_donate_banner ==> !spec_run(s, msgs).show_donate_banner,
        !s.show_notice_banner ==> !spec_run(s, msgs).show_notice_banner,
    decreases msgs.len(),
{
    if msgs.len() > 0 {
        lemma_dismissed_banner_stays_hidden(spec_step(s, msgs[0]), msgs.drop_first());
    }
}

impl AppState {
    /// The state at launch.
    pub fn new() -> (s: Self)
        ensures
            s@ == spec_initial_state(),
    {
        AppState {
            active_nav: NavSelection::MapView,
            show_donate_banner: true,
            show_notice_banner: true,
            ram_display: initial_ram_text(),
        }
    }

    /// Applies one event: the state moves exactly as [`spec_step`] says,
    /// and the returned action is exactly what [`spec_action`] asks of
    /// the front end. Total over the closed event set; never fails.
    pub fn update(&mut self, msg: Message) -> (act: Action)
        ensures
            final(self)@ == spec_step(old(self)@, msg),
            act == spec_action(msg),
    {
        match msg {
            Message::NavClicked(v) => {
                self.active_nav = v;
                Action::Continue
            },
            Message::HideDonateBanner => {
                self.show_donate_banner = false;
                Action::Continue
            },
            Message::HideNoticeBanner => {
                self.show_notice_banner = false;
                Action::Continue
            },
            Message::Exit => Action::Exit,
            Message::TitleBarDragged => Action::DragWindow,
            Message::Tick(sample) => {
                self.ram_display = format_ram_text(sample);
                Action::Continue
            },
            _ => Action::Continue,
        }
    }
}

} // verus!
