//! The view composer: a pure mapping from the current state to a
//! renderable layout tree. The tree holds plain values only — labels,
//! flags and the messages each button dispatches — and a thin front end
//! turns it into real widgets. Composing twice from the same state gives
//! the same tree, and the contracts pin every field.

use vstd::prelude::*;

use crate::messages::{Message, NavSelection};
use crate::state::{AppState, StateModel};

verus! {

/// A button with its visible label and the message it dispatches.
pub struct LabeledButton {
    pub label: String,
    pub message: Message,
}

/// One entry of the sidebar's navigation list; `is_active` marks the
/// entry whose target is the current selection.
pub struct NavEntry {
    pub icon: String,
    pub label: String,
    pub target: NavSelection,
    pub is_active: bool,
}

/// One row of the sidebar's scrolling list.
pub enum SidebarRow {
    Header(String),
    Nav(NavEntry),
    Gap,
}

/// The fixed sidebar: brand block, navigation rows, profile button and
/// the memory readout box.
pub struct Sidebar {
    pub brand_title: String,
    pub brand_version: String,
    pub rows: Vec<SidebarRow>,
    pub profile_label: String,
    pub ram_text: String,
}

/// A dismissible informational strip: title, body, the dismiss button,
/// and an optional extra action button.
pub struct Banner {
    pub title: String,
    pub body: String,
    pub dismiss: LabeledButton,
    pub action: Option<LabeledButton>,
}

/// A titled block of prose.
pub struct TextSection {
    pub title: String,
    pub body: String,
}

/// One label/value line of the statistics block.
pub struct StatLine {
    pub label: String,
    pub value: String,
}

/// The informational pane shown for every selection but the map: the two
/// conditional banners followed by the static sections.
pub struct InfoPane {
    pub donate: Option<Banner>,
    pub notice: Option<Banner>,
    pub about: TextSection,
    pub stats_title: String,
    pub stats: Vec<StatLine>,
    pub login_lines: Vec<String>,
    pub contributors: TextSection,
    pub footer_text: String,
    pub theme_button: LabeledButton,
}

/// The content pane: the placeholder map or the informational pane.
pub enum ContentPane {
    MapPane { caption: String },
    InfoPane(InfoPane),
}

/// The custom titlebar: the drag handle and the close button.
pub struct TitleBar {
    pub drag: LabeledButton,
    pub close: LabeledButton,
}

/// The whole renderable layout tree.
pub struct ViewTree {
    pub title_bar: TitleBar,
    pub sidebar: Sidebar,
    pub content: ContentPane,
}

/// The button carries exactly this label and dispatches exactly this
/// message.
pub open spec fn spec_button(b: LabeledButton, label: Seq<char>, message: Message) -> bool {
    b.label@ == label && b.message == message
}

/// The entry points at `target` and is marked active iff `target` is the
/// current selection.
pub open spec fn spec_nav_entry(
    e: NavEntry,
    icon: Seq<char>,
    label: Seq<char>,
    target: NavSelection,
    active: NavSelection,
) -> bool {
    &&& e.icon@ == icon
    &&& e.label@ == label
    &&& e.target == target
    &&& e.is_active == (target == active)
}

/// The full sidebar for the given selection and readout text.
pub open spec fn spec_sidebar(sb: Sidebar, active: NavSelection, ram: Seq<char>) -> bool {
    &&& sb.brand_title@ == "EFTM"@
    &&& sb.brand_version@ == "v1.0.0 - f5943bab6"@
    &&& sb.rows@.len() == 12
    &&& sb.rows@[0] matches SidebarRow::Header(t) && t@ == "Main"@
    &&& sb.rows@[1] matches SidebarRow::Nav(e) && spec_nav_entry(
        e,
        "[M]"@,
        "Map View"@,
        NavSelection::MapView,
        active,
    )
    &&& sb.rows@[2] matches SidebarRow::Nav(e) && spec_nav_entry(
        e,
        "[H]"@,
        "Tactical HUD"@,
        NavSelection::TacticalHud,
        active,
    )
    &&& sb.rows@[3] is Gap
    &&& sb.rows@[4] matches SidebarRow::Header(t) && t@ == "Tools"@
    &&& sb.rows@[5] matches SidebarRow::Nav(e) && spec_nav_entry(
        e,
        "[I]"@,
        "Item Manager"@,
        NavSelection::ItemManager,
        active,
    )
    &&& sb.rows@[6] matches SidebarRow::Nav(e) && spec_nav_entry(
        e,
        "[C]"@,
        "Loadout Catalogue"@,
        NavSelection::LoadoutCatalogue,
        active,
    )
    &&& sb.rows@[7] is Gap
    &&& sb.rows@[8] matches SidebarRow::Header(t) && t@ == "Support"@
    &&& sb.rows@[9] matches SidebarRow::Nav(e) && spec_nav_entry(
        e,
        "[W]"@,
        "Wiki"@,
        NavSelection::Wiki,
        active,
    )
    &&& sb.rows@[10] matches SidebarRow::Nav(e) && spec_nav_entry(
        e,
        "[R]"@,
        "Roadmap"@,
        NavSelection::Roadmap,
        active,
    )
    &&& sb.rows@[11] matches SidebarRow::Nav(e) && spec_nav_entry(
        e,
        "[F]"@,
        "Feedback"@,
        NavSelection::Feedback,
        active,
    )
    &&& sb.profile_label@ == "Anonymous"@
    &&& sb.ram_text@ == ram
}

/// The donate banner: dismissed by [`Message::HideDonateBanner`], no
/// extra action.
pub open spec fn spec_donate_banner(b: Banner) -> bool {
    &&& b.title@ == "Hey There!"@
    &&& b.body@ == "Support the development by donating via Ko-Fi..."@
    &&& spec_button(b.dismiss, "[X]"@, Message::HideDonateBanner)
    &&& b.action is None
}

/// The notice banner: dismissed by [`Message::HideNoticeBanner`], with
/// the map-settings action button.
pub open spec fn spec_notice_banner(b: Banner) -> bool {
    &&& b.title@ == "Notice!"@
    &&& b.body@ == "Map data for Customs is outdated..."@
    &&& spec_button(b.dismiss, "[X]"@, Message::HideNoticeBanner)
    &&& b.action matches Some(a) && spec_button(a, "Open Map Settings"@, Message::OpenMapSettings)
}

/// The informational pane: each banner present iff its flag is set, and
/// the static sections exactly as shown.
pub open spec fn spec_info_pane(p: InfoPane, show_donate: bool, show_notice: bool) -> bool {
    &&& p.donate is Some <==> show_donate
    &&& p.donate matches Some(b) ==> spec_donate_banner(b)
    &&& p.notice is Some <==> show_notice
    &&& p.notice matches Some(b) ==> spec_notice_banner(b)
    &&& p.about.title@ == "About"@
    &&& p.about.body@
        == "EFTM is a project that aims to provide real-time maps and tactical overlay for Tarkov players..."@
    &&& p.stats_title@ == "Statistics"@
    &&& p.stats@.len() == 2
    &&& p.stats@[0].label@ == "Tarkov players online:"@
    &&& p.stats@[0].value@ == "32 users"@
    &&& p.stats@[1].label@ == "Past 24 hours:"@
    &&& p.stats@[1].value@ == "706 unique users"@
    &&& p.login_lines@.len() == 2
    &&& p.login_lines@[0]@ == "You are logged in."@
    &&& p.login_lines@[1]@ == "Welcome back, anonymous!"@
    &&& p.contributors.title@ == "Contributors"@
    &&& p.contributors.body@ == ""@
    &&& p.footer_text@ == "Powered by Iced"@
    &&& spec_button(p.theme_button, "[☀️/🌙]"@, Message::ChangeTheme)
}

/// The titlebar: the drag handle dispatches the drag event, the close
/// button the exit event.
pub open spec fn spec_title_bar(t: TitleBar) -> bool {
    &&& spec_button(t.drag, "EFTM - Tactical Map Overlay"@, Message::TitleBarDragged)
    &&& spec_button(t.close, "  X  "@, Message::Exit)
}

/// Whether donate-banner content is anywhere in the content pane.
pub open spec fn spec_content_shows_donate(c: ContentPane) -> bool {
    c matches ContentPane::InfoPane(p) && p.donate is Some
}

/// Whether notice-banner content is anywhere in the content pane.
pub open spec fn spec_content_shows_notice(c: ContentPane) -> bool {
    c matches ContentPane::InfoPane(p) && p.notice is Some
}

/// The content pane for the given selection and banner flags: the map
/// placeholder for the map selection, the informational pane otherwise.
pub open spec fn spec_content(
    c: ContentPane,
    active: NavSelection,
    show_donate: bool,
    show_notice: bool,
) -> bool {
    if active == NavSelection::MapView {
        c matches ContentPane::MapPane { caption } && caption@
            == "[ Tarkov Map Rendering Engine ]"@
    } else {
        c matches ContentPane::InfoPane(p) && spec_info_pane(p, show_donate, show_notice)
    }
}

/// The whole tree composed from one state.
pub open spec fn spec_view_tree(v: ViewTree, s: StateModel) -> bool {
    &&& spec_title_bar(v.title_bar)
    &&& spec_sidebar(v.sidebar, s.active_nav, s.ram_display)
    &&& spec_content(v.content, s.active_nav, s.show_donate_banner, s.show_notice_banner)
}

/// Law: the map pane never includes banner content, and every other
/// pane shows each banner exactly when its flag is set.
pub proof fn lemma_banner_visibility(
    c: ContentPane,
    active: NavSelection,
    show_donate: bool,
    show_notice: bool,
)
    requires
        spec_content(c, active, show_donate, show_notice),
    ensures
        active == NavSelection::MapView ==> !spec_content_shows_donate(c),
        active == NavSelection::MapView ==> !spec_content_shows_notice(c),
        active != NavSelection::MapView ==> (spec_content_shows_donate(c) <==> show_donate),
        active != NavSelection::MapView ==> (spec_content_shows_notice(c) <==> show_notice),
{
}

/// One navigation entry for the sidebar list.
fn nav_item(icon: &str, label: &str, target: NavSelection, active: NavSelection) -> (e: NavEntry)
    ensures
        spec_nav_entry(e, icon@, label@, target, active),
{
    NavEntry {
        icon: String::from_str(icon),
        label: String::from_str(label),
        target,
        is_active: target == active,
    }
}

/// One section header row for the sidebar list.
fn section_header(title: &str) -> (r: SidebarRow)
    ensures
        r matches SidebarRow::Header(t) && t@ == title@,
{
    SidebarRow::Header(String::from_str(title))
}

/// The sidebar for the given selection, with the readout text shown in
/// its bottom box.
pub fn sidebar_view(active: NavSelection, ram_display: &str) -> (sb: Sidebar)
    ensures
        spec_sidebar(sb, active, ram_display@),
{
    let mut rows: Vec<SidebarRow> = Vec::new();
    rows.push(section_header("Main"));
    rows.push(SidebarRow::Nav(nav_item("[M]", "Map View", NavSelection::MapView, active)));
    rows.push(SidebarRow::Nav(nav_item("[H]", "Tactical HUD", NavSelection::TacticalHud, active)));
    rows.push(SidebarRow::Gap);
    rows.push(section_header("Tools"));
    rows.push(SidebarRow::Nav(nav_item("[I]", "Item Manager", NavSelection::ItemManager, active)));
    rows.push(
        SidebarRow::Nav(nav_item("[C]", "Loadout Catalogue", NavSelection::LoadoutCatalogue, active)),
    );
    rows.push(SidebarRow::Gap);
    rows.push(section_header("Support"));
    rows.push(SidebarRow::Nav(nav_item("[W]", "Wiki", NavSelection::Wiki, active)));
    rows.push(SidebarRow::Nav(nav_item("[R]", "Roadmap", NavSelection::Roadmap, active)));
    rows.push(SidebarRow::Nav(nav_item("[F]", "Feedback", NavSelection::Feedback, active)));
    Sidebar {
        brand_title: String::from_str("EFTM"),
        brand_version: String::from_str("v1.0.0 - f5943bab6"),
        rows,
        profile_label: String::from_str("Anonymous"),
        ram_text: String::from_str(ram_display),
    }
}

/// The placeholder map pane.
pub fn map_content_view() -> (c: ContentPane)
    ensures
        c matches ContentPane::MapPane { caption } && caption@
            == "[ Tarkov Map Rendering Engine ]"@,
{
    ContentPane::MapPane { caption: String::from_str("[ Tarkov Map Rendering Engine ]") }
}

/// The donate banner.
fn donate_banner() -> (b: Banner)
    ensures
        spec_donate_banner(b),
{
    Banner {
        title: String::from_str("Hey There!"),
        body: String::from_str("Support the development by donating via Ko-Fi..."),
        dismiss: LabeledButton {
            label: String::from_str("[X]"),
            message: Message::HideDonateBanner,
        },
        action: None,
    }
}

/// The notice banner with its map-settings action.
fn notice_banner() -> (b: Banner)
    ensures
        spec_notice_banner(b),
{
    Banner {
        title: String::from_str("Notice!"),
        body: String::from_str("Map data for Customs is outdated..."),
        dismiss: LabeledButton {
            label: String::from_str("[X]"),
            message: Message::HideNoticeBanner,
        },
        action: Some(
            LabeledButton {
                label: String::from_str("Open Map Settings"),
                message: Message::OpenMapSettings,
            },
        ),
    }
}

/// A titled block of prose.
fn text_section(title: &str, body: &str) -> (s: TextSection)
    ensures
        s.title@ == title@,
        s.body@ == body@,
{
    TextSection { title: String::from_str(title), body: String::from_str(body) }
}

/// One label/value line of the statistics block.
fn stat_line(label: &str, value: &str) -> (s: StatLine)
    ensures
        s.label@ == label@,
        s.value@ == value@,
{
    StatLine { label: String::from_str(label), value: String::from_str(value) }
}

/// The statistics block's lines.
fn statistics_section() -> (stats: Vec<StatLine>)
    ensures
        stats@.len() == 2,
        stats@[0].label@ == "Tarkov players online:"@,
        stats@[0].value@ == "32 users"@,
        stats@[1].label@ == "Past 24 hours:"@,
        stats@[1].value@ == "706 unique users"@,
{
    let mut stats: Vec<StatLine> = Vec::new();
    stats.push(stat_line("Tarkov players online:", "32 users"));
    stats.push(stat_line("Past 24 hours:", "706 unique users"));
    stats
}

/// The informational pane, with each banner included iff its flag is
/// set.
pub fn main_content_view(show_donate: bool, show_notice: bool) -> (c: ContentPane)
    ensures
        c matches ContentPane::InfoPane(p) && spec_info_pane(p, show_donate, show_notice),
{
    let mut login_lines: Vec<String> = Vec::new();
    login_lines.push(String::from_str("You are logged in."));
    login_lines.push(String::from_str("Welcome back, anonymous!"));
    ContentPane::InfoPane(
        InfoPane {
            donate: if show_donate {
                Some(donate_banner())
            } else {
                None
            },
            notice: if show_notice {
                Some(notice_banner())
            } else {
                None
            },
            about: text_section(
                "About",
                "EFTM is a project that aims to provide real-time maps and tactical overlay for Tarkov players...",
            ),
            stats_title: String::from_str("Statistics"),
            stats: statistics_section(),
            login_lines,
            contributors: text_section("Contributors", ""),
            footer_text: String::from_str("Powered by Iced"),
            theme_button: LabeledButton {
                label: String::from_str("[☀️/🌙]"),
                message: Message::ChangeTheme,
            },
        },
    )
}

/// The custom titlebar.
fn title_bar() -> (t: TitleBar)
    ensures
        spec_title_bar(t),
{
    TitleBar {
        drag: LabeledButton {
            label: String::from_str("EFTM - Tactical Map Overlay"),
            message: Message::TitleBarDragged,
        },
        close: LabeledButton { label: String::from_str("  X  "), message: Message::Exit },
    }
}

/// Composes the whole layout tree from the current state. Pure: reads
/// the state, touches nothing, and two calls on equal states agree on
/// every field the contract names.
pub fn view(state: &AppState) -> (v: ViewTree)
    ensures
        spec_view_tree(v, state@),
        spec_content_shows_donate(v.content) <==> (state.active_nav != NavSelection::MapView
            && state.show_donate_banner),
        spec_content_shows_notice(v.content) <==> (state.active_nav != NavSelection::MapView
            && state.show_notice_banner),
{
    let content = if matches!(state.active_nav, NavSelection::MapView) {
        map_content_view()
    } else {
        main_content_view(state.show_donate_banner, state.show_notice_banner)
    };
    ViewTree {
        title_bar: title_bar(),
        sidebar: sidebar_view(state.active_nav, state.ram_display.as_str()),
        content,
    }
}

} // verus!
