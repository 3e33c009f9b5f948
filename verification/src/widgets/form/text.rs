//! A single-line text entry field: a named, labelled, editable string
//! value.  The host renders it; the runtime holds its value and applies key
//! presses to it.

use vstd::prelude::*;

use crate::components::ComponentReturn;
use crate::input::{ComponentEvent, KeyCode, KeyEvent};

verus! {

/// A text field: its label and name, the value it started from, its current
/// value and whether it holds the focus.
#[derive(Debug)]
pub struct TextField {
    pub label: String,
    pub name: String,
    pub initial_value: String,
    pub value: String,
    pub selected: bool,
}

/// A message of the text field: one key press appended to the value.
#[derive(Clone, Copy, PartialEq, Eq, Structural, Debug)]
pub enum TextFieldMsg {
    AppendInput(KeyEvent),
}

/// The text field after an edit: everything kept but the value.
pub open spec fn text_with_value(old: TextField, new: TextField, value: Seq<char>) -> bool {
    &&& new.label == old.label
    &&& new.name == old.name
    &&& new.initial_value == old.initial_value
    &&& new.selected == old.selected
    &&& new.value@ == value
}

/// The value a key press turns a text value into: a printable character is
/// appended, backspace removes the last character, and every other key
/// leaves the value alone.
pub open spec fn edited_value(value: Seq<char>, key: KeyEvent) -> Seq<char> {
    match key.code {
        KeyCode::Char(c) => value.push(c),
        KeyCode::Backspace => if value.len() == 0 {
            value
        } else {
            value.drop_last()
        },
        _ => value,
    }
}

impl TextField {
    pub fn builder() -> (b: TextFieldBuilder)
        ensures
            b.name@ == Seq::<char>::empty(),
            b.label@ == Seq::<char>::empty(),
            b.initial_value@ == Seq::<char>::empty(),
            !b.selected,
    {
        TextFieldBuilder {
            name: String::new(),
            label: String::new(),
            initial_value: String::new(),
            selected: false,
        }
    }

    pub fn name(&self) -> (r: &str)
        ensures
            r@ == self.name@,
    {
        self.name.as_str()
    }

    pub fn value(&self) -> (r: String)
        ensures
            r == self.value,
    {
        self.value.clone()
    }

    pub fn set_selected(&mut self, selected: bool)
        ensures
            *final(self) == (TextField { selected, ..*old(self) }),
    {
        self.selected = selected;
    }

    /// Replaces the value wholesale, as the query editor does when it is
    /// pre-populated.
    pub fn set_value(&mut self, input: &str)
        ensures
            text_with_value(*old(self), *final(self), input@),
    {
        self.value = input.to_owned();
    }

    fn append_input(&mut self, input: KeyEvent)
        ensures
            text_with_value(*old(self), *final(self), edited_value(old(self).value@, input)),
    {
        match input.code {
            KeyCode::Char(c) => {
                self.value.push(c);
            },
            KeyCode::Backspace => {
                self.value.pop();
            },
            _ => {},
        }
    }

    /// Processes one message: the key press is applied to the value.
    pub fn update(&mut self, msg: TextFieldMsg) -> (r: ComponentReturn<TextFieldMsg, ()>)
        ensures
            match msg {
                TextFieldMsg::AppendInput(key) => text_with_value(
                    *old(self),
                    *final(self),
                    edited_value(old(self).value@, key),
                ),
            },
            r.is_empty(),
    {
        match msg {
            TextFieldMsg::AppendInput(input) => self.append_input(input),
        }
        ComponentReturn::empty()
    }

    /// Turns a key press into messages: every key but Enter edits the
    /// value; Enter is left for the form to interpret.
    pub fn handle_event(&self, evt: ComponentEvent) -> (msgs: Vec<TextFieldMsg>)
        ensures
            match evt {
                ComponentEvent::Key(key) => if key.code is Enter {
                    msgs@ == Seq::<TextFieldMsg>::empty()
                } else {
                    msgs@ == seq![TextFieldMsg::AppendInput(key)]
                },
            },
    {
        let mut msgs: Vec<TextFieldMsg> = Vec::new();
        proof {
            assert(msgs@ =~= Seq::<TextFieldMsg>::empty());
        }
        match evt {
            ComponentEvent::Key(key) => {
                match key.code {
                    KeyCode::Enter => {},
                    _ => {
                        msgs.push(TextFieldMsg::AppendInput(key));
                        proof {
                            assert(msgs@ =~= seq![TextFieldMsg::AppendInput(key)]);
                        }
                    },
                }
            },
        }
        msgs
    }
}

impl Clone for TextField {
    fn clone(&self) -> (r: Self)
        ensures
            r == *self,
    {
        TextField {
            label: self.label.clone(),
            name: self.name.clone(),
            initial_value: self.initial_value.clone(),
            value: self.value.clone(),
            selected: self.selected,
        }
    }
}

/// Builds a text field; every part defaults to empty or unselected.
pub struct TextFieldBuilder {
    pub name: String,
    pub label: String,
    pub initial_value: String,
    pub selected: bool,
}

impl TextFieldBuilder {
    pub fn name(self, name: String) -> (b: TextFieldBuilder)
        ensures
            b == (TextFieldBuilder { name, ..self }),
    {
        TextFieldBuilder { name, ..self }
    }

    pub fn label(self, label: String) -> (b: TextFieldBuilder)
        ensures
            b == (TextFieldBuilder { label, ..self }),
    {
        TextFieldBuilder { label, ..self }
    }

    pub fn initial_value(self, initial_value: String) -> (b: TextFieldBuilder)
        ensures
            b == (TextFieldBuilder { initial_value, ..self }),
    {
        TextFieldBuilder { initial_value, ..self }
    }

    pub fn selected(self, selected: bool) -> (b: TextFieldBuilder)
        ensures
            b == (TextFieldBuilder { selected, ..self }),
    {
        TextFieldBuilder { selected, ..self }
    }

    /// The finished field: its value starts from the initial value.
    pub fn build(self) -> (t: TextField)
        ensures
            t.name == self.name,
            t.label == self.label,
            t.initial_value == self.initial_value,
            t.value == self.initial_value,
            t.selected == self.selected,
    {
        let value = self.initial_value.clone();
        TextField {
            label: self.label,
            name: self.name,
            initial_value: self.initial_value,
            value,
            selected: self.selected,
        }
    }
}

} // verus!
