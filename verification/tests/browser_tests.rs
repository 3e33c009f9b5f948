use edc_connector_tui::components::entries::{AssetEntry, AssetsComponent};
use edc_connector_tui::components::resources::msg::ResourcesMsg;
use edc_connector_tui::components::resources::{Focus, ResourceCmd};
use edc_connector_tui::components::Action;
use edc_connector_tui::config::{AuthKind, ConnectorConfig};
use edc_connector_tui::input::{ComponentEvent, KeyCode, KeyEvent};
use edc_connector_tui::types::connector::{Connector, ConnectorStatus};
use edc_connector_tui::types::notification::NotificationKind;

fn connector() -> Connector {
    Connector::new(
        ConnectorConfig::new(
            String::from("test"),
            String::from("http://localhost:19193/management"),
            AuthKind::NoAuth,
        ),
        ConnectorStatus::Connected,
    )
}

fn rows(n: usize) -> Vec<AssetEntry> {
    (0..n).map(|i| AssetEntry::new(format!("asset-{}", i), String::from("{}"))).collect()
}

fn bound_browser() -> AssetsComponent {
    let mut b = AssetsComponent::default();
    b.init(connector());
    b
}

#[test]
fn init_issues_the_default_fetch() {
    let mut b = AssetsComponent::default();
    let r = b.init(connector());
    assert_eq!(r.cmds.len(), 1);
    match &r.cmds[0] {
        ResourceCmd::FetchCollection { connector, query } => {
            assert_eq!(connector.name(), "test");
            assert_eq!(query.limit(), 50);
            assert_eq!(query.offset(), 0);
        },
        _ => panic!("expected a collection fetch"),
    }
}

#[test]
fn full_page_makes_next_page_fetch_one_page_further() {
    let mut b = bound_browser();
    b.update(ResourcesMsg::ResourcesFetched(rows(50)));
    let r = b.update(ResourcesMsg::NextPage);
    assert_eq!(r.cmds.len(), 1);
    match &r.cmds[0] {
        ResourceCmd::FetchCollection { query, .. } => {
            assert_eq!(query.offset(), 50);
            assert_eq!(query.limit(), 50);
        },
        _ => panic!("expected a collection fetch"),
    }
    assert_eq!(b.query.offset(), 50);
}

#[test]
fn short_page_makes_next_page_a_no_op() {
    let mut b = bound_browser();
    b.update(ResourcesMsg::ResourcesFetched(rows(13)));
    let r = b.update(ResourcesMsg::NextPage);
    assert!(r.cmds.is_empty());
    assert_eq!(b.query.offset(), 0);
}

#[test]
fn prev_page_only_fetches_past_the_first_page() {
    let mut b = bound_browser();
    let r = b.update(ResourcesMsg::PrevPage);
    assert!(r.cmds.is_empty());
    assert_eq!(b.query.offset(), 0);
    b.update(ResourcesMsg::ResourcesFetched(rows(50)));
    b.update(ResourcesMsg::NextPage);
    assert_eq!(b.query.offset(), 50);
    let r = b.update(ResourcesMsg::PrevPage);
    assert_eq!(r.cmds.len(), 1);
    match &r.cmds[0] {
        ResourceCmd::FetchCollection { query, .. } => assert_eq!(query.offset(), 0),
        _ => panic!("expected a collection fetch"),
    }
}

#[test]
fn refresh_twice_fetches_the_same_query_twice() {
    let mut b = bound_browser();
    b.update(ResourcesMsg::ResourcesFetched(rows(3)));
    let r1 = b.update(ResourcesMsg::RefreshPage);
    let r2 = b.update(ResourcesMsg::RefreshPage);
    let q1 = match &r1.cmds[0] {
        ResourceCmd::FetchCollection { query, .. } => query.clone(),
        _ => panic!("expected a collection fetch"),
    };
    let q2 = match &r2.cmds[0] {
        ResourceCmd::FetchCollection { query, .. } => query.clone(),
        _ => panic!("expected a collection fetch"),
    };
    assert_eq!(q1.limit(), q2.limit());
    assert_eq!(q1.offset(), q2.offset());
    assert_eq!(q1.sort().is_none(), q2.sort().is_none());
    assert_eq!(q1.filter_expression().len(), q2.filter_expression().len());
    assert_eq!(b.table.elements.len(), 3);
}

#[test]
fn failed_fetch_keeps_the_list_and_raises_a_banner() {
    let mut b = bound_browser();
    b.update(ResourcesMsg::ResourcesFetched(rows(2)));
    let r = b.update(ResourcesMsg::ResourcesFetchFailed(String::from(
        "connection refused",
    )));
    assert!(matches!(b.focus, Focus::ResourceList));
    assert_eq!(b.table.elements.len(), 2);
    assert_eq!(r.actions.len(), 1);
    match &r.actions[0] {
        Action::Notification(n) => {
            assert_eq!(n.text(), "connection refused");
            assert!(matches!(n.kind(), NotificationKind::Error));
            assert_eq!(n.timeout(), 5);
        },
        _ => panic!("expected a notification"),
    }
}

#[test]
fn selecting_a_row_fetches_its_detail() {
    let mut b = bound_browser();
    b.update(ResourcesMsg::ResourcesFetched(rows(3)));
    let msgs = b.handle_event(ComponentEvent::Key(KeyEvent::plain(KeyCode::Enter)));
    assert_eq!(msgs.len(), 1);
    let selected = match msgs.into_iter().next().unwrap() {
        ResourcesMsg::ResourceSelected(row) => row,
        _ => panic!("expected a selection"),
    };
    assert_eq!(selected.id, "asset-0");
    let r = b.update(ResourcesMsg::ResourceSelected(selected));
    assert_eq!(r.cmds.len(), 1);
    match &r.cmds[0] {
        ResourceCmd::FetchDetail { row, .. } => assert_eq!(row.id, "asset-0"),
        _ => panic!("expected a detail fetch"),
    }
}

#[test]
fn fetched_detail_opens_and_escape_returns_to_the_list() {
    let mut b = bound_browser();
    let detail = AssetEntry::new(String::from("asset-7"), String::from("{}"));
    let r = b.update(ResourcesMsg::ResourceFetched(detail));
    assert!(matches!(b.focus, Focus::Resource));
    assert!(matches!(r.actions[0], Action::ChangeSheet));
    let msgs = b.handle_event(ComponentEvent::Key(KeyEvent::plain(KeyCode::Esc)));
    assert!(matches!(msgs[0], ResourcesMsg::Back));
    let r = b.update(ResourcesMsg::Back);
    assert!(matches!(b.focus, Focus::ResourceList));
    assert!(matches!(r.actions[0], Action::ChangeSheet));
}

#[test]
fn confirmed_filter_replaces_the_query_and_fetches() {
    let mut b = bound_browser();
    b.update(ResourcesMsg::ShowFilters);
    assert!(b.show_filters);
    let q = edc_connector_tui::query::Query::builder().limit(10).build();
    let r = b.update(ResourcesMsg::ChangeQuery(q));
    assert!(!b.show_filters);
    assert_eq!(b.query.limit(), 10);
    assert_eq!(r.cmds.len(), 1);
    match &r.cmds[0] {
        ResourceCmd::FetchCollection { query, .. } => assert_eq!(query.limit(), 10),
        _ => panic!("expected a collection fetch"),
    }
}

#[test]
fn pagination_keys_map_to_page_messages() {
    let b = bound_browser();
    let n = b.handle_event(ComponentEvent::Key(KeyEvent::plain(KeyCode::Char('n'))));
    assert!(matches!(n[0], ResourcesMsg::NextPage));
    let p = b.handle_event(ComponentEvent::Key(KeyEvent::plain(KeyCode::Char('p'))));
    assert!(matches!(p[0], ResourcesMsg::PrevPage));
    let r = b.handle_event(ComponentEvent::Key(KeyEvent::plain(KeyCode::Char('r'))));
    assert!(matches!(r[0], ResourcesMsg::RefreshPage));
    let f = b.handle_event(ComponentEvent::Key(KeyEvent::plain(KeyCode::Char('f'))));
    assert!(matches!(f[0], ResourcesMsg::ShowFilters));
}

#[test]
fn next_page_at_the_counter_end_is_a_no_op() {
    let mut b = bound_browser();
    let q = edc_connector_tui::query::Query::builder().limit(u32::MAX).build();
    b.update(ResourcesMsg::ChangeQuery(q));
    let full: Vec<AssetEntry> = Vec::new();
    b.update(ResourcesMsg::ResourcesFetched(full));
    // an empty page is not full, and even a full one could not move further
    let r = b.update(ResourcesMsg::NextPage);
    assert!(r.cmds.is_empty());
}

#[test]
fn unbound_browser_fetches_nothing() {
    let mut b = AssetsComponent::default();
    let r = b.update(ResourcesMsg::RefreshPage);
    assert!(r.cmds.is_empty());
}
