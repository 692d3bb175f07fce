use eftm::messages::{MemSample, Message, NavSelection};
use eftm::state::AppState;
use eftm::view::{main_content_view, map_content_view, sidebar_view, view, ContentPane, SidebarRow};

const ALL_SELECTIONS: [NavSelection; 7] = [
    NavSelection::MapView,
    NavSelection::TacticalHud,
    NavSelection::ItemManager,
    NavSelection::LoadoutCatalogue,
    NavSelection::Wiki,
    NavSelection::Roadmap,
    NavSelection::Feedback,
];

#[test]
fn map_view_renders_the_placeholder_pane() {
    let s = AppState::new();
    let v = view(&s);
    match v.content {
        ContentPane::MapPane { caption } => {
            assert_eq!(caption, "[ Tarkov Map Rendering Engine ]");
        }
        ContentPane::InfoPane(_) => panic!("map selection must render the map pane"),
    }
}

#[test]
fn map_view_never_includes_banner_content() {
    // Even with both banner flags still set, the map pane carries no banner.
    let s = AppState::new();
    assert!(s.show_donate_banner && s.show_notice_banner);
    let v = view(&s);
    assert!(matches!(v.content, ContentPane::MapPane { .. }));
}

#[test]
fn other_selections_show_banners_iff_flags() {
    for sel in ALL_SELECTIONS {
        if sel == NavSelection::MapView {
            continue;
        }
        for (donate, notice) in [(true, true), (true, false), (false, true), (false, false)] {
            let mut s = AppState::new();
            s.update(Message::NavClicked(sel));
            if !donate {
                s.update(Message::HideDonateBanner);
            }
            if !notice {
                s.update(Message::HideNoticeBanner);
            }
            let v = view(&s);
            match v.content {
                ContentPane::InfoPane(p) => {
                    assert_eq!(p.donate.is_some(), donate);
                    assert_eq!(p.notice.is_some(), notice);
                }
                ContentPane::MapPane { .. } => panic!("non-map selection must render the info pane"),
            }
        }
    }
}

#[test]
fn banner_buttons_dispatch_their_messages() {
    let pane = main_content_view(true, true);
    let p = match pane {
        ContentPane::InfoPane(p) => p,
        ContentPane::MapPane { .. } => panic!("info pane expected"),
    };
    let donate = p.donate.expect("donate banner");
    assert_eq!(donate.title, "Hey There!");
    assert_eq!(donate.dismiss.message, Message::HideDonateBanner);
    assert!(donate.action.is_none());
    let notice = p.notice.expect("notice banner");
    assert_eq!(notice.title, "Notice!");
    assert_eq!(notice.dismiss.message, Message::HideNoticeBanner);
    let action = notice.action.expect("map settings action");
    assert_eq!(action.label, "Open Map Settings");
    assert_eq!(action.message, Message::OpenMapSettings);
}

#[test]
fn info_pane_static_sections() {
    let pane = main_content_view(false, false);
    let p = match pane {
        ContentPane::InfoPane(p) => p,
        ContentPane::MapPane { .. } => panic!("info pane expected"),
    };
    assert_eq!(p.about.title, "About");
    assert_eq!(p.stats_title, "Statistics");
    assert_eq!(p.stats.len(), 2);
    assert_eq!(p.stats[0].label, "Tarkov players online:");
    assert_eq!(p.stats[0].value, "32 users");
    assert_eq!(p.stats[1].label, "Past 24 hours:");
    assert_eq!(p.stats[1].value, "706 unique users");
    assert_eq!(p.login_lines, ["You are logged in.", "Welcome back, anonymous!"]);
    assert_eq!(p.contributors.title, "Contributors");
    assert_eq!(p.footer_text, "Powered by Iced");
    assert_eq!(p.theme_button.label, "[☀️/🌙]");
    assert_eq!(p.theme_button.message, Message::ChangeTheme);
}

#[test]
fn sidebar_marks_exactly_the_active_entry() {
    for active in ALL_SELECTIONS {
        let sb = sidebar_view(active, "RAM: --% <- -- MB EFTM");
        let mut active_count: usize = 0;
        for row in &sb.rows {
            if let SidebarRow::Nav(e) = row {
                assert_eq!(e.is_active, e.target == active);
                if e.is_active {
                    active_count += 1;
                }
            }
        }
        assert_eq!(active_count, 1);
    }
}

#[test]
fn sidebar_lists_all_entries_in_order() {
    let sb = sidebar_view(NavSelection::MapView, "x");
    assert_eq!(sb.brand_title, "EFTM");
    assert_eq!(sb.brand_version, "v1.0.0 - f5943bab6");
    assert_eq!(sb.profile_label, "Anonymous");
    assert_eq!(sb.ram_text, "x");
    assert_eq!(sb.rows.len(), 12);
    let targets: Vec<NavSelection> = sb
        .rows
        .iter()
        .filter_map(|r| match r {
            SidebarRow::Nav(e) => Some(e.target),
            _ => None,
        })
        .collect();
    assert_eq!(targets, ALL_SELECTIONS);
    let headers: Vec<&str> = sb
        .rows
        .iter()
        .filter_map(|r| match r {
            SidebarRow::Header(t) => Some(t.as_str()),
            _ => None,
        })
        .collect();
    assert_eq!(headers, ["Main", "Tools", "Support"]);
}

#[test]
fn sidebar_shows_the_current_readout() {
    let mut s = AppState::new();
    s.update(Message::Tick(MemSample {
        system_total: 8,
        system_used: 1,
        process_resident: 1536,
    }));
    let v = view(&s);
    assert_eq!(v.sidebar.ram_text, "RAM: 12.5% <- 1.5 MB EFTM");
}

#[test]
fn title_bar_buttons() {
    let s = AppState::new();
    let v = view(&s);
    assert_eq!(v.title_bar.drag.label, "EFTM - Tactical Map Overlay");
    assert_eq!(v.title_bar.drag.message, Message::TitleBarDragged);
    assert_eq!(v.title_bar.close.label, "  X  ");
    assert_eq!(v.title_bar.close.message, Message::Exit);
}

#[test]
fn map_pane_helper_matches_composer() {
    let c = map_content_view();
    assert!(matches!(c, ContentPane::MapPane { .. }));
}
