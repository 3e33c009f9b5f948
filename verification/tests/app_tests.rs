use edc_connector_tui::app::model::AppFocus;
use edc_connector_tui::app::msg::AppMsg;
use edc_connector_tui::app::{App, AppCmd};
use edc_connector_tui::components::connectors::ConnectorsMsg;
use edc_connector_tui::components::entries::AssetEntry;
use edc_connector_tui::components::header::HeaderMsg;
use edc_connector_tui::components::launch_bar::LaunchBarMsg;
use edc_connector_tui::components::resources::msg::ResourcesMsg;
use edc_connector_tui::components::resources::ResourceCmd;
use edc_connector_tui::components::table::TableMsg;
use edc_connector_tui::components::NotificationMsg;
use edc_connector_tui::config::{AuthKind, ConnectorConfig};
use edc_connector_tui::input::{ComponentEvent, KeyCode, KeyEvent, KeyModifiers};
use edc_connector_tui::types::connector::{Connector, ConnectorStatus};
use edc_connector_tui::types::info::InfoSheet;
use edc_connector_tui::types::nav::{Menu, Nav, MENU_COUNT};
use edc_connector_tui::types::notification::Notification;

fn connector(name: &str) -> Connector {
    Connector::new(
        ConnectorConfig::new(
            String::from(name),
            String::from("http://localhost:19193/management"),
            AuthKind::NoAuth,
        ),
        ConnectorStatus::Connected,
    )
}

fn app_with_selected_connector() -> App {
    let mut app = App::init_with_connectors(vec![connector("one")]);
    app.update(AppMsg::ConnectorsMsg(ConnectorsMsg::Table(TableMsg::Outer(connector("one")))));
    app
}

#[test]
fn initial_focus_is_the_connector_list() {
    let app = App::init_with_connectors(vec![connector("one")]);
    assert_eq!(app.focus, AppFocus::ConnectorList);
    assert!(!app.should_quit);
}

#[test]
fn navigation_with_a_connector_focuses_the_browser_and_fetches() {
    let mut app = app_with_selected_connector();
    let r = app.update(AppMsg::RoutingMsg(Nav::AssetsList));
    assert_eq!(app.focus, AppFocus::Assets);
    assert_eq!(app.header.menu, Menu::Assets);
    assert_eq!(r.cmds.len(), 1);
    match &r.cmds[0] {
        AppCmd::Assets(ResourceCmd::FetchCollection { connector, query }) => {
            assert_eq!(connector.name(), "one");
            assert_eq!(query.limit(), 50);
        },
        _ => panic!("expected the assets fetch"),
    }
}

#[test]
fn navigation_without_a_connector_changes_only_the_menu() {
    let mut app = App::init_with_connectors(vec![connector("one")]);
    let r = app.update(AppMsg::RoutingMsg(Nav::AssetsList));
    assert_eq!(app.focus, AppFocus::ConnectorList);
    assert_eq!(app.header.menu, Menu::Assets);
    assert!(r.cmds.is_empty());
}

#[test]
fn navigating_away_and_back_keeps_fetched_rows() {
    let mut app = app_with_selected_connector();
    app.update(AppMsg::RoutingMsg(Nav::AssetsList));
    app.update(AppMsg::AssetsMsg(ResourcesMsg::ResourcesFetched(vec![
        AssetEntry::new(String::from("a1"), String::from("{}")),
        AssetEntry::new(String::from("a2"), String::from("{}")),
    ])));
    assert_eq!(app.assets.table.elements.len(), 2);
    app.update(AppMsg::RoutingMsg(Nav::PoliciesList));
    assert_eq!(app.focus, AppFocus::Policies);
    assert_eq!(app.assets.table.elements.len(), 2);
    app.update(AppMsg::RoutingMsg(Nav::AssetsList));
    assert_eq!(app.focus, AppFocus::Assets);
    assert_eq!(app.assets.table.elements.len(), 2);
    assert_eq!(app.assets.table.elements[0].id, "a1");
}

#[test]
fn input_reaches_only_the_focused_component() {
    let mut app = app_with_selected_connector();
    app.update(AppMsg::RoutingMsg(Nav::AssetsList));
    let msgs = app.handle_event(ComponentEvent::Key(KeyEvent::plain(KeyCode::Char('j'))));
    assert_eq!(msgs.len(), 1);
    assert!(matches!(msgs[0], AppMsg::AssetsMsg(_)));
    app.update(AppMsg::RoutingMsg(Nav::ConnectorsList));
    let msgs = app.handle_event(ComponentEvent::Key(KeyEvent::plain(KeyCode::Char('j'))));
    assert_eq!(msgs.len(), 1);
    assert!(matches!(msgs[0], AppMsg::ConnectorsMsg(_)));
}

#[test]
fn unclaimed_input_falls_through_to_the_header() {
    let app = App::init_with_connectors(vec![]);
    let msgs = app.handle_event(ComponentEvent::Key(KeyEvent::plain(KeyCode::Tab)));
    assert_eq!(msgs.len(), 1);
    assert!(matches!(msgs[0], AppMsg::HeaderMsg(HeaderMsg::NextTab)));
}

#[test]
fn the_command_bar_character_is_the_last_resort() {
    let app = App::init_with_connectors(vec![]);
    let msgs = app.handle_event(ComponentEvent::Key(KeyEvent::plain(KeyCode::Char(':'))));
    assert_eq!(msgs.len(), 1);
    assert!(matches!(msgs[0], AppMsg::ShowLaunchBar));
}

#[test]
fn menu_cycling_wraps_in_both_directions() {
    let mut app = App::init_with_connectors(vec![]);
    for expected in [
        Menu::Assets,
        Menu::Policies,
        Menu::ContractDefinitions,
        Menu::ContractNegotiations,
        Menu::ContractAgreements,
        Menu::TransferProcesses,
        Menu::Edrs,
        Menu::DataPlanes,
        Menu::Connectors,
    ] {
        app.update(AppMsg::HeaderMsg(HeaderMsg::NextTab));
        assert_eq!(app.header.menu, expected);
    }
    app.update(AppMsg::HeaderMsg(HeaderMsg::PrevTab));
    assert_eq!(app.header.menu, Menu::DataPlanes);
}

#[test]
fn header_cycling_requests_navigation() {
    let mut app = App::init_with_connectors(vec![]);
    let r = app.update(AppMsg::HeaderMsg(HeaderMsg::NextTab));
    assert_eq!(r.msgs.len(), 1);
    assert!(matches!(r.msgs[0], AppMsg::RoutingMsg(Nav::AssetsList)));
}

#[test]
fn quit_command_sets_the_quit_flag() {
    let mut app = App::init_with_connectors(vec![]);
    app.update(AppMsg::ShowLaunchBar);
    assert_eq!(app.focus, AppFocus::LaunchBar);
    app.update(AppMsg::LaunchBarMsg(LaunchBarMsg::Append('q')));
    app.update(AppMsg::LaunchBarMsg(LaunchBarMsg::Confirm));
    assert!(app.should_quit);
    assert!(!app.launch_bar_visible);
}

#[test]
fn launch_bar_navigates_by_category_name() {
    let mut app = app_with_selected_connector();
    app.update(AppMsg::ShowLaunchBar);
    for c in "edrs".chars() {
        app.update(AppMsg::LaunchBarMsg(LaunchBarMsg::Append(c)));
    }
    app.update(AppMsg::LaunchBarMsg(LaunchBarMsg::Confirm));
    assert_eq!(app.focus, AppFocus::Edrs);
    assert_eq!(app.header.menu, Menu::Edrs);
    assert!(!app.should_quit);
}

#[test]
fn cancelling_the_launch_bar_restores_the_connector_list() {
    let mut app = App::init_with_connectors(vec![]);
    app.update(AppMsg::ShowLaunchBar);
    app.update(AppMsg::LaunchBarMsg(LaunchBarMsg::Append('x')));
    app.update(AppMsg::LaunchBarMsg(LaunchBarMsg::Cancel));
    assert_eq!(app.focus, AppFocus::ConnectorList);
    assert!(!app.launch_bar_visible);
    assert_eq!(app.launch_bar.input, "");
}

#[test]
fn notifications_show_with_a_timed_clear_and_expire() {
    let mut app = App::init_with_connectors(vec![]);
    let r = app.update(AppMsg::NontificationMsg(NotificationMsg::Show(Notification::error(
        String::from("connection refused"),
    ))));
    let banner = app.footer.notification.as_ref().expect("banner should show");
    assert_eq!(banner.text(), "connection refused");
    assert_eq!(r.cmds.len(), 1);
    match &r.cmds[0] {
        AppCmd::ClearNotification { timeout } => assert_eq!(*timeout, 5),
        _ => panic!("expected the expiry timer"),
    }
    app.update(AppMsg::NontificationMsg(NotificationMsg::Clear));
    assert!(app.footer.notification.is_none());
}

#[test]
fn tab_and_shift_tab_reach_the_header() {
    let app = App::init_with_connectors(vec![]);
    let back = app.handle_event(ComponentEvent::Key(KeyEvent {
        code: KeyCode::BackTab,
        modifiers: KeyModifiers::Shift,
    }));
    assert!(matches!(back[0], AppMsg::HeaderMsg(HeaderMsg::PrevTab)));
}

#[test]
fn menu_positions_convert_back_to_their_entries() {
    assert_eq!(MENU_COUNT, 9);
    for i in 0..MENU_COUNT {
        let m = Menu::from_ordinal(i).expect("every position names an entry");
        assert_eq!(m.ordinal(), i);
        assert_eq!(m.to_nav().to_menu(), m);
    }
    assert!(Menu::from_ordinal(MENU_COUNT).is_none());
}

#[test]
fn help_sheets_merge_in_order() {
    let a = InfoSheet::default().key_binding("<a>", "first");
    let b = InfoSheet::default().key_binding("<b>", "second");
    let merged = a.merge(b);
    assert_eq!(merged.entries().len(), 2);
    assert_eq!(merged.entries()[0].0, "<a>");
    assert_eq!(merged.entries()[1].1, "second");
}

#[test]
fn browser_failures_bubble_as_notification_messages() {
    let mut app = app_with_selected_connector();
    app.update(AppMsg::RoutingMsg(Nav::AssetsList));
    let r = app.update(AppMsg::AssetsMsg(ResourcesMsg::ResourcesFetchFailed(String::from(
        "connection refused",
    ))));
    assert_eq!(r.msgs.len(), 1);
    let bubbled = r.msgs.into_iter().next().unwrap();
    match &bubbled {
        AppMsg::NontificationMsg(NotificationMsg::Show(n)) => {
            assert_eq!(n.text(), "connection refused")
        },
        _ => panic!("expected the notification request"),
    }
    let r = app.update(bubbled);
    assert_eq!(app.footer.notification.as_ref().unwrap().text(), "connection refused");
    assert_eq!(r.cmds.len(), 1);
    assert!(matches!(r.cmds[0], AppCmd::ClearNotification { timeout: 5 }));
}

#[test]
fn the_initial_help_sheet_merges_list_and_global_bindings() {
    let app = App::init_with_connectors(vec![]);
    let entries = app.header.sheet.entries();
    assert_eq!(entries.len(), 8);
    assert_eq!(entries[0].0, "<j/down>");
    assert_eq!(entries[2].0, "<enter>");
    assert_eq!(entries[3].0, "<tab>");
    assert_eq!(entries[7].0, "<:q>");
}

#[test]
fn navigation_recomputes_the_help_sheet_for_the_browser() {
    let mut app = app_with_selected_connector();
    app.update(AppMsg::RoutingMsg(Nav::AssetsList));
    let entries = app.header.sheet.entries();
    // connector list (3) + global (5) + browser list view (2 cursor + 4 paging)
    assert_eq!(entries.len(), 14);
    assert_eq!(entries[8].0, "<j/down>");
    assert_eq!(entries[10].0, "<n>");
    assert_eq!(entries[13].0, "<f>");
}
