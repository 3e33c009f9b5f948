use edc_connector_tui::components::resources::filter::{
    Filter, FilterError, FilterLocalMsg, FilterMsg,
};
use edc_connector_tui::input::{ComponentEvent, KeyCode, KeyEvent};
use edc_connector_tui::query::{Query, SortOrder};
use edc_connector_tui::widgets::form::msg::{FormLocalMsg, FormMsg};
use edc_connector_tui::widgets::form::ChangeSet;

fn submit() -> FilterMsg {
    FilterMsg::Local(FilterLocalMsg::Form(FormMsg::Local(FormLocalMsg::Submit)))
}

fn confirmed_query(filter: &mut Filter) -> Option<Query> {
    let r = filter.update(submit());
    let mut out = None;
    for m in r.msgs {
        if let FilterMsg::Outer(q) = m {
            out = Some(q);
        }
    }
    out
}

#[test]
fn populate_then_confirm_returns_the_query() {
    let original = Query::builder()
        .limit(25)
        .sort("name", SortOrder::Desc)
        .filter("type", "=", String::from("asset"))
        .filter("state", "LIKE", String::from("STARTED"))
        .build();
    let mut filter = Filter::new(Query::default());
    assert!(filter.set_query(original.clone()).is_ok());
    let q = confirmed_query(&mut filter).expect("confirmation should produce a query");
    assert_eq!(q.limit(), 25);
    assert_eq!(q.offset(), 0);
    let sort = q.sort().as_ref().unwrap();
    assert_eq!(sort.field(), "name");
    assert!(matches!(sort.order(), SortOrder::Desc));
    assert_eq!(q.filter_expression().len(), 2);
    assert_eq!(q.filter_expression()[0].operand_left(), "type");
    assert_eq!(q.filter_expression()[0].operator(), "=");
    assert_eq!(q.filter_expression()[0].operand_right(), "asset");
    assert_eq!(q.filter_expression()[1].operand_left(), "state");
    assert_eq!(q.filter_expression()[1].operator(), "LIKE");
    assert_eq!(q.filter_expression()[1].operand_right(), "STARTED");
}

#[test]
fn populate_without_sort_or_filters_round_trips() {
    let original = Query::builder().limit(5).build();
    let mut filter = Filter::new(Query::default());
    assert!(filter.set_query(original).is_ok());
    let q = confirmed_query(&mut filter).expect("confirmation should produce a query");
    assert_eq!(q.limit(), 5);
    assert_eq!(q.offset(), 0);
    assert!(q.sort().is_none());
    assert!(q.filter_expression().is_empty());
}

#[test]
fn malformed_limit_is_rejected_locally() {
    let mut filter = Filter::new(Query::default());
    filter.form.change_field("limit", ChangeSet::single("abc")).unwrap();
    let r = filter.update(submit());
    assert!(r.msgs.is_empty());
    assert_eq!(filter.error(), Some(FilterError::InvalidLimit));
    assert_eq!(filter.query.limit(), 50);
    assert_eq!(filter.query.offset(), 0);
}

#[test]
fn zero_limit_is_rejected_locally() {
    let mut filter = Filter::new(Query::default());
    filter.form.change_field("limit", ChangeSet::single("0")).unwrap();
    let r = filter.update(submit());
    assert!(r.msgs.is_empty());
    assert_eq!(filter.error(), Some(FilterError::InvalidLimit));
}

#[test]
fn unknown_sort_order_token_is_rejected_locally() {
    let mut filter = Filter::new(Query::default());
    filter.form.change_field("sort_order", ChangeSet::single("SIDEWAYS")).unwrap();
    let r = filter.update(submit());
    assert!(r.msgs.is_empty());
    assert_eq!(filter.error(), Some(FilterError::InvalidSortOrder));
}

#[test]
fn successful_confirmation_clears_an_earlier_error() {
    let mut filter = Filter::new(Query::default());
    filter.form.change_field("limit", ChangeSet::single("abc")).unwrap();
    filter.update(submit());
    assert_eq!(filter.error(), Some(FilterError::InvalidLimit));
    filter.form.change_field("limit", ChangeSet::single("10")).unwrap();
    let q = confirmed_query(&mut filter).expect("corrected form should confirm");
    assert_eq!(q.limit(), 10);
    assert_eq!(filter.error(), None);
}

#[test]
fn an_incomplete_criterion_row_is_left_out() {
    let mut filter = Filter::new(Query::default());
    let mut pairs = Vec::new();
    pairs.push((String::from("left_operand"), String::from("type")));
    pairs.push((String::from("operator"), String::from("=")));
    filter.form.change_field("filter_0", ChangeSet::row(pairs)).unwrap();
    let q = confirmed_query(&mut filter).expect("confirmation should produce a query");
    assert!(q.filter_expression().is_empty());
}

#[test]
fn paging_moves_the_editor_query_by_one_page() {
    let mut filter = Filter::new(Query::default());
    filter.next_page();
    assert_eq!(filter.query.offset(), 50);
    filter.next_page();
    assert_eq!(filter.query.offset(), 100);
    filter.prev_page();
    assert_eq!(filter.query.offset(), 50);
    filter.prev_page();
    assert_eq!(filter.query.offset(), 0);
}

#[test]
fn typed_keys_reach_the_focused_field() {
    let mut filter = Filter::new(Query::default());
    filter.form.change_field("limit", ChangeSet::single("")).unwrap();
    for c in ['2', '0'] {
        let msgs = filter.handle_event(ComponentEvent::Key(KeyEvent::plain(KeyCode::Char(c))));
        for m in msgs {
            filter.update(m);
        }
    }
    let q = confirmed_query(&mut filter).expect("typed limit should confirm");
    assert_eq!(q.limit(), 20);
}

#[test]
fn repopulating_discards_abandoned_edits() {
    let mut filter = Filter::new(Query::default());
    filter.form.change_field("sort_field", ChangeSet::single("ghosted")).unwrap();
    let mut pairs = Vec::new();
    pairs.push((String::from("left_operand"), String::from("type")));
    pairs.push((String::from("operator"), String::from("=")));
    pairs.push((String::from("right_operand"), String::from("asset")));
    filter.form.change_field("filter_0", ChangeSet::row(pairs)).unwrap();
    filter.set_query(Query::default()).unwrap();
    let q = confirmed_query(&mut filter).expect("pristine form should confirm");
    assert!(q.sort().is_none());
    assert!(q.filter_expression().is_empty());
}
