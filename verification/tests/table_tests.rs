use edc_connector_tui::components::table::{TableLocalMsg, TableMsg, UiTable};
use edc_connector_tui::input::{ComponentEvent, KeyCode, KeyEvent};

fn table_with(n: usize) -> UiTable<u32> {
    let elements: Vec<u32> = (0..n as u32).collect();
    UiTable::with_elements(String::from("rows"), elements, false)
}

#[test]
fn move_up_from_first_wraps_to_last() {
    let mut t = table_with(4);
    assert_eq!(t.selected, Some(0));
    t.update(TableMsg::Local(TableLocalMsg::MoveUp));
    assert_eq!(t.selected, Some(3));
}

#[test]
fn move_down_from_last_wraps_to_first() {
    let mut t = table_with(4);
    t.selected = Some(3);
    t.update(TableMsg::Local(TableLocalMsg::MoveDown));
    assert_eq!(t.selected, Some(0));
}

#[test]
fn moves_on_empty_table_are_no_ops() {
    let mut t = table_with(0);
    assert_eq!(t.selected, None);
    t.update(TableMsg::Local(TableLocalMsg::MoveUp));
    assert_eq!(t.selected, None);
    t.update(TableMsg::Local(TableLocalMsg::MoveDown));
    assert_eq!(t.selected, None);
}

#[test]
fn wraparound_holds_for_every_small_size() {
    for n in 1..10usize {
        let mut t = table_with(n);
        t.update(TableMsg::Local(TableLocalMsg::MoveUp));
        assert_eq!(t.selected, Some(n - 1));
        let mut t = table_with(n);
        t.selected = Some(n - 1);
        t.update(TableMsg::Local(TableLocalMsg::MoveDown));
        assert_eq!(t.selected, Some(0));
    }
}

#[test]
fn interior_moves_step_by_one() {
    let mut t = table_with(5);
    t.selected = Some(2);
    t.update(TableMsg::Local(TableLocalMsg::MoveDown));
    assert_eq!(t.selected, Some(3));
    t.update(TableMsg::Local(TableLocalMsg::MoveUp));
    assert_eq!(t.selected, Some(2));
}

#[test]
fn replacing_rows_keeps_a_valid_cursor() {
    let mut t = table_with(5);
    t.selected = Some(4);
    t.update_elements(vec![10, 11, 12, 13, 14, 15]);
    assert_eq!(t.selected, Some(4));
    t.update_elements(vec![7, 8]);
    assert_eq!(t.selected, Some(0));
    t.update_elements(vec![]);
    assert_eq!(t.selected, None);
}

#[test]
fn enter_emits_the_selected_row_when_armed() {
    let t = table_with(3).on_select();
    let msgs = t.handle_event(ComponentEvent::Key(KeyEvent::plain(KeyCode::Enter)));
    assert_eq!(msgs.len(), 1);
    match &msgs[0] {
        TableMsg::Outer(row) => assert_eq!(*row, 0),
        _ => panic!("expected the selected row"),
    }
}

#[test]
fn enter_does_nothing_without_a_selection_callback() {
    let t = table_with(3);
    let msgs = t.handle_event(ComponentEvent::Key(KeyEvent::plain(KeyCode::Enter)));
    assert!(msgs.is_empty());
}

#[test]
fn navigation_keys_become_cursor_moves() {
    let t = table_with(3);
    let down = t.handle_event(ComponentEvent::Key(KeyEvent::plain(KeyCode::Char('j'))));
    assert!(matches!(down[0], TableMsg::Local(TableLocalMsg::MoveDown)));
    let up = t.handle_event(ComponentEvent::Key(KeyEvent::plain(KeyCode::Up)));
    assert!(matches!(up[0], TableMsg::Local(TableLocalMsg::MoveUp)));
    let other = t.handle_event(ComponentEvent::Key(KeyEvent::plain(KeyCode::Char('x'))));
    assert!(other.is_empty());
}
