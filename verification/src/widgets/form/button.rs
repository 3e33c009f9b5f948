//! The form's confirm control: a labelled button that emits a click when it
//! holds the focus, Enter is pressed and a click handler was installed.

use vstd::prelude::*;

use crate::input::{ComponentEvent, KeyCode};

verus! {

/// A button message: the button was clicked.
#[derive(Clone, Copy, PartialEq, Eq, Structural, Debug)]
pub enum ButtonMsg {
    Clicked,
}

/// A labelled button.  `armed` records whether a click handler was
/// installed; without one, Enter produces nothing, as a button built
/// without a handler does.
#[derive(Debug)]
pub struct ButtonComponent {
    pub selected: bool,
    pub label: String,
    pub armed: bool,
}

impl Default for ButtonComponent {
    fn default() -> (b: ButtonComponent)
        ensures
            !b.selected,
            b.label@ == Seq::<char>::empty(),
            !b.armed,
    {
        ButtonComponent { selected: false, label: String::new(), armed: false }
    }
}

impl ButtonComponent {
    pub fn set_selected(&mut self, selected: bool)
        ensures
            *final(self) == (ButtonComponent { selected, ..*old(self) }),
    {
        self.selected = selected;
    }

    /// Installs the click handler: the owner interprets the click.
    pub fn on_click(self) -> (b: ButtonComponent)
        ensures
            b == (ButtonComponent { armed: true, ..self }),
    {
        ButtonComponent { armed: true, ..self }
    }

    pub fn label(self, label: &str) -> (b: ButtonComponent)
        ensures
            b.selected == self.selected,
            b.armed == self.armed,
            b.label@ == label@,
    {
        ButtonComponent { label: label.to_owned(), ..self }
    }

    /// Turns a key press into messages: Enter clicks the button when a
    /// handler is installed.
    pub fn handle_event(&self, evt: ComponentEvent) -> (msgs: Vec<ButtonMsg>)
        ensures
            match evt {
                ComponentEvent::Key(key) => if key.code is Enter && self.armed {
                    msgs@ == seq![ButtonMsg::Clicked]
                } else {
                    msgs@ == Seq::<ButtonMsg>::empty()
                },
            },
    {
        let mut msgs: Vec<ButtonMsg> = Vec::new();
        proof {
            assert(msgs@ =~= Seq::<ButtonMsg>::empty());
        }
        match evt {
            ComponentEvent::Key(key) => {
                match key.code {
                    KeyCode::Enter => {
                        if self.armed {
                            msgs.push(ButtonMsg::Clicked);
                            proof {
                                assert(msgs@ =~= seq![ButtonMsg::Clicked]);
                            }
                        }
                    },
                    _ => {},
                }
            },
        }
        msgs
    }
}

} // verus!
