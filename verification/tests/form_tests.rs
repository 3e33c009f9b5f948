use edc_connector_tui::input::{ComponentEvent, KeyCode, KeyEvent, KeyModifiers};
use edc_connector_tui::widgets::form::msg::{FieldMsg, FormError, FormLocalMsg, FormMsg};
use edc_connector_tui::widgets::form::row::{RowField, RowMsg};
use edc_connector_tui::widgets::form::text::{TextField, TextFieldMsg};
use edc_connector_tui::widgets::form::{ChangeSet, FieldComponent, Form};

fn text_field(name: &str, selected: bool) -> TextField {
    TextField::builder()
        .name(String::from(name))
        .label(String::from(name))
        .selected(selected)
        .build()
}

fn two_field_form() -> Form {
    Form::default()
        .field(FieldComponent::Text(text_field("first", true)))
        .field(FieldComponent::Text(text_field("second", false)))
}

fn field_selected(form: &Form, idx: usize) -> bool {
    match &form.fields()[idx] {
        FieldComponent::Text(t) => t.selected,
        FieldComponent::Row(r) => r.selected,
    }
}

#[test]
fn focus_walks_down_to_the_confirm_control() {
    let mut form = two_field_form();
    assert!(field_selected(&form, 0));
    form.update(FormMsg::Local(FormLocalMsg::MoveDown));
    assert!(!field_selected(&form, 0));
    assert!(field_selected(&form, 1));
    assert!(!form.confirm_focus);
    form.update(FormMsg::Local(FormLocalMsg::MoveDown));
    assert!(form.confirm_focus);
    assert!(form.confirm.selected);
    assert!(!field_selected(&form, 1));
}

#[test]
fn focus_returns_from_the_confirm_control_to_the_last_field() {
    let mut form = two_field_form();
    form.update(FormMsg::Local(FormLocalMsg::MoveDown));
    form.update(FormMsg::Local(FormLocalMsg::MoveDown));
    assert!(form.confirm_focus);
    form.update(FormMsg::Local(FormLocalMsg::MoveUp));
    assert!(!form.confirm_focus);
    assert!(field_selected(&form, 1));
}

#[test]
fn exactly_one_control_is_focused_while_walking() {
    let mut form = two_field_form();
    for _ in 0..5 {
        form.update(FormMsg::Local(FormLocalMsg::MoveDown));
        let focused = [field_selected(&form, 0), field_selected(&form, 1), form.confirm.selected];
        assert_eq!(focused.iter().filter(|f| **f).count(), 1);
    }
}

#[test]
fn enter_on_a_field_advances_the_focus() {
    let form = two_field_form();
    let msgs = form.handle_event(ComponentEvent::Key(KeyEvent::plain(KeyCode::Enter)));
    assert_eq!(msgs.len(), 1);
    assert!(matches!(msgs[0], FormMsg::Local(FormLocalMsg::MoveDown)));
}

#[test]
fn enter_on_the_armed_confirm_control_submits() {
    let mut form = two_field_form();
    form.update(FormMsg::Local(FormLocalMsg::MoveDown));
    form.update(FormMsg::Local(FormLocalMsg::MoveDown));
    let msgs = form.handle_event(ComponentEvent::Key(KeyEvent::plain(KeyCode::Enter)));
    assert_eq!(msgs.len(), 1);
    assert!(matches!(msgs[0], FormMsg::Local(FormLocalMsg::Submit)));
    let r = form.update(FormMsg::Local(FormLocalMsg::Submit));
    assert_eq!(r.msgs.len(), 1);
    assert!(matches!(r.msgs[0], FormMsg::Submitted));
}

#[test]
fn typing_edits_the_focused_field() {
    let mut form = two_field_form();
    for c in ['h', 'i'] {
        let msgs = form.handle_event(ComponentEvent::Key(KeyEvent::plain(KeyCode::Char(c))));
        for m in msgs {
            form.update(m);
        }
    }
    let msgs = form.handle_event(ComponentEvent::Key(KeyEvent::plain(KeyCode::Backspace)));
    for m in msgs {
        form.update(m);
    }
    match &form.fields()[0] {
        FieldComponent::Text(t) => assert_eq!(t.value, "h"),
        _ => panic!("expected a text field"),
    }
}

#[test]
fn changing_an_unknown_field_is_rejected() {
    let mut form = two_field_form();
    let r = form.change_field("third", ChangeSet::single("x"));
    assert_eq!(r, Err(FormError::FieldNotFound));
}

#[test]
fn a_row_change_on_a_text_field_is_rejected() {
    let mut form = two_field_form();
    let r = form.change_field("first", ChangeSet::row(Vec::new()));
    assert_eq!(r, Err(FormError::ChangeMismatch));
}

#[test]
fn a_row_walks_left_and_right_without_wrapping() {
    let mut row = RowField::default()
        .name("pair")
        .field(text_field("left", false))
        .field(text_field("right", false));
    row.set_selected(true);
    assert_eq!(row.selected_idx, 0);
    row.update(RowMsg::MoveLeft);
    assert_eq!(row.selected_idx, 0);
    row.update(RowMsg::MoveRight);
    assert_eq!(row.selected_idx, 1);
    row.update(RowMsg::MoveRight);
    assert_eq!(row.selected_idx, 1);
    assert!(row.fields[1].selected);
    assert!(!row.fields[0].selected);
}

#[test]
fn control_arrows_move_inside_a_row() {
    let row = RowField::default()
        .name("pair")
        .field(text_field("left", false))
        .field(text_field("right", false));
    let right = row.handle_key(KeyEvent { code: KeyCode::Char('l'), modifiers: KeyModifiers::Control });
    assert!(matches!(right[0], RowMsg::MoveRight));
    let left = row.handle_key(KeyEvent::plain(KeyCode::Left));
    assert!(matches!(left[0], RowMsg::MoveLeft));
    let typed = row.handle_key(KeyEvent::plain(KeyCode::Char('l')));
    assert!(matches!(typed[0], RowMsg::FieldMsg(TextFieldMsg::AppendInput(_))));
}

#[test]
fn setting_row_values_by_name_reaches_each_field() {
    let mut row = RowField::default()
        .name("pair")
        .field(text_field("left", false))
        .field(text_field("right", false));
    let mut values = Vec::new();
    values.push((String::from("right"), String::from("r")));
    values.push((String::from("left"), String::from("l")));
    assert!(row.set_values(values).is_ok());
    let map = row.as_map();
    assert_eq!(map[0], (String::from("left"), String::from("l")));
    assert_eq!(map[1], (String::from("right"), String::from("r")));
    let mut missing = Vec::new();
    missing.push((String::from("middle"), String::from("m")));
    assert_eq!(row.set_values(missing), Err(FormError::FieldNotFound));
}

#[test]
fn a_field_message_reaches_only_the_focused_field() {
    let mut form = two_field_form();
    form.update(FormMsg::Local(FormLocalMsg::FieldMsg(FieldMsg::Text(
        TextFieldMsg::AppendInput(KeyEvent::plain(KeyCode::Char('x'))),
    ))));
    match (&form.fields()[0], &form.fields()[1]) {
        (FieldComponent::Text(a), FieldComponent::Text(b)) => {
            assert_eq!(a.value, "x");
            assert_eq!(b.value, "");
        },
        _ => panic!("expected text fields"),
    }
}

#[test]
fn row_changes_apply_in_order_until_a_missing_name() {
    let mut row = RowField::default()
        .name("pair")
        .field(text_field("left", false))
        .field(text_field("right", false));
    let mut values = Vec::new();
    values.push((String::from("left"), String::from("l2")));
    values.push((String::from("middle"), String::from("m")));
    values.push((String::from("right"), String::from("r2")));
    assert_eq!(row.set_values(values), Err(FormError::FieldNotFound));
    let map = row.as_map();
    assert_eq!(map[0], (String::from("left"), String::from("l2")));
    assert_eq!(map[1], (String::from("right"), String::from("")));
}
