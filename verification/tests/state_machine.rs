use eftm::messages::{Action, MemSample, Message, NavSelection};
use eftm::state::AppState;

const ALL_SELECTIONS: [NavSelection; 7] = [
    NavSelection::MapView,
    NavSelection::TacticalHud,
    NavSelection::ItemManager,
    NavSelection::LoadoutCatalogue,
    NavSelection::Wiki,
    NavSelection::Roadmap,
    NavSelection::Feedback,
];

fn sample(total: u64, used: u64, resident: u64) -> MemSample {
    MemSample {
        system_total: total,
        system_used: used,
        process_resident: resident,
    }
}

#[test]
fn initial_state() {
    let s = AppState::new();
    assert_eq!(s.active_nav, NavSelection::MapView);
    assert!(s.show_donate_banner);
    assert!(s.show_notice_banner);
    assert_eq!(s.ram_display, "RAM: --% <- -- MB EFTM");
}

#[test]
fn nav_click_selects_every_entry() {
    for v in ALL_SELECTIONS {
        let mut s = AppState::new();
        let act = s.update(Message::NavClicked(v));
        assert_eq!(act, Action::Continue);
        assert_eq!(s.active_nav, v);
        assert!(s.show_donate_banner);
        assert!(s.show_notice_banner);
    }
}

#[test]
fn nav_click_overwrites_previous_selection() {
    let mut s = AppState::new();
    s.update(Message::NavClicked(NavSelection::Wiki));
    s.update(Message::NavClicked(NavSelection::Roadmap));
    assert_eq!(s.active_nav, NavSelection::Roadmap);
}

#[test]
fn dismissed_donate_banner_stays_hidden() {
    let mut s = AppState::new();
    let act = s.update(Message::HideDonateBanner);
    assert_eq!(act, Action::Continue);
    assert!(!s.show_donate_banner);
    assert!(s.show_notice_banner);
    for v in ALL_SELECTIONS {
        s.update(Message::NavClicked(v));
        assert!(!s.show_donate_banner);
    }
    s.update(Message::Tick(sample(100, 50, 2048)));
    s.update(Message::OpenMapSettings);
    s.update(Message::DonateKoFi);
    s.update(Message::ChangeTheme);
    s.update(Message::TitleBarDragged);
    assert!(!s.show_donate_banner);
}

#[test]
fn dismissed_notice_banner_stays_hidden() {
    let mut s = AppState::new();
    let act = s.update(Message::HideNoticeBanner);
    assert_eq!(act, Action::Continue);
    assert!(!s.show_notice_banner);
    assert!(s.show_donate_banner);
    for v in ALL_SELECTIONS {
        s.update(Message::NavClicked(v));
        assert!(!s.show_notice_banner);
    }
    s.update(Message::Tick(sample(0, 0, 0)));
    s.update(Message::OpenMapSettings);
    s.update(Message::ChangeTheme);
    assert!(!s.show_notice_banner);
}

#[test]
fn dismissing_both_banners() {
    let mut s = AppState::new();
    s.update(Message::HideDonateBanner);
    s.update(Message::HideNoticeBanner);
    assert!(!s.show_donate_banner);
    assert!(!s.show_notice_banner);
}

#[test]
fn unwired_events_are_no_ops() {
    let mut s = AppState::new();
    s.update(Message::NavClicked(NavSelection::Feedback));
    let before_ram = s.ram_display.clone();
    for m in [
        Message::OpenMapSettings,
        Message::DonateKoFi,
        Message::ChangeTheme,
    ] {
        let act = s.update(m);
        assert_eq!(act, Action::Continue);
        assert_eq!(s.active_nav, NavSelection::Feedback);
        assert!(s.show_donate_banner);
        assert!(s.show_notice_banner);
        assert_eq!(s.ram_display, before_ram);
    }
}

#[test]
fn exit_and_drag_actions() {
    let mut s = AppState::new();
    let act = s.update(Message::Exit);
    assert_eq!(act, Action::Exit);
    assert_eq!(s.active_nav, NavSelection::MapView);
    assert!(s.show_donate_banner);
    let act = s.update(Message::TitleBarDragged);
    assert_eq!(act, Action::DragWindow);
    assert_eq!(s.active_nav, NavSelection::MapView);
}

#[test]
fn tick_changes_only_the_readout() {
    let mut s = AppState::new();
    s.update(Message::NavClicked(NavSelection::Wiki));
    s.update(Message::HideDonateBanner);
    let act = s.update(Message::Tick(sample(100, 50, 2048)));
    assert_eq!(act, Action::Continue);
    assert_eq!(s.active_nav, NavSelection::Wiki);
    assert!(!s.show_donate_banner);
    assert!(s.show_notice_banner);
    assert_eq!(s.ram_display, "RAM: 50.0% <- 2.0 MB EFTM");
}
