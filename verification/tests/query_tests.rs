use edc_connector_tui::query::{Query, SortOrder};
use edc_connector_tui::util::{format_u32, format_u64, parse_u32};

#[test]
fn default_query_asks_for_the_first_fifty() {
    let q = Query::default();
    assert_eq!(q.limit(), 50);
    assert_eq!(q.offset(), 0);
    assert!(q.sort().is_none());
    assert!(q.filter_expression().is_empty());
}

#[test]
fn builder_collects_every_part() {
    let q = Query::builder()
        .limit(25)
        .offset(50)
        .sort("name", SortOrder::Desc)
        .filter("type", "=", String::from("asset"))
        .build();
    assert_eq!(q.limit(), 25);
    assert_eq!(q.offset(), 50);
    let sort = q.sort().as_ref().unwrap();
    assert_eq!(sort.field(), "name");
    assert!(matches!(sort.order(), SortOrder::Desc));
    assert_eq!(q.filter_expression().len(), 1);
    let c = &q.filter_expression()[0];
    assert_eq!(c.operand_left(), "type");
    assert_eq!(c.operator(), "=");
    assert_eq!(c.operand_right(), "asset");
}

#[test]
fn formatting_gives_exact_digits() {
    assert_eq!(format_u32(0), "0");
    assert_eq!(format_u32(7), "7");
    assert_eq!(format_u32(50), "50");
    assert_eq!(format_u32(12345), "12345");
    assert_eq!(format_u32(u32::MAX), "4294967295");
    assert_eq!(format_u64(18446744073709551615), "18446744073709551615");
}

#[test]
fn parsing_accepts_exactly_decimal_numbers() {
    assert_eq!(parse_u32("0"), Some(0));
    assert_eq!(parse_u32("42"), Some(42));
    assert_eq!(parse_u32("007"), Some(7));
    assert_eq!(parse_u32("4294967295"), Some(u32::MAX));
    assert_eq!(parse_u32("4294967296"), None);
    assert_eq!(parse_u32(""), None);
    assert_eq!(parse_u32("abc"), None);
    assert_eq!(parse_u32("12a"), None);
    assert_eq!(parse_u32("-5"), None);
    assert_eq!(parse_u32("+5"), None);
    assert_eq!(parse_u32(" 5"), None);
}

#[test]
fn parsing_inverts_formatting() {
    for n in [0u32, 1, 9, 10, 49, 50, 99, 1000, 65536, u32::MAX] {
        assert_eq!(parse_u32(format_u32(n).as_str()), Some(n));
    }
}

#[test]
fn cloning_a_query_keeps_its_contents() {
    let q = Query::builder().limit(10).sort("id", SortOrder::Asc).filter(
        "state",
        "LIKE",
        String::from("STARTED"),
    ).build();
    let c = q.clone();
    assert_eq!(c.limit(), q.limit());
    assert_eq!(c.offset(), q.offset());
    assert_eq!(c.sort().as_ref().unwrap().field(), "id");
    assert_eq!(c.filter_expression().len(), 1);
    assert_eq!(c.filter_expression()[0].operand_right(), "STARTED");
}
