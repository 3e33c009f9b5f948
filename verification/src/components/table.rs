//! A generic list display with a selection cursor.  Up and down wrap around;
//! Enter hands the selected row outward.  Replacing the rows keeps the
//! cursor when it is still valid and falls back to the first row otherwise.

use vstd::prelude::*;

use crate::components::ComponentReturn;
use crate::input::{ComponentEvent, KeyCode, KeyEvent};
use crate::types::info::{sheet_views, InfoSheet};

verus! {

broadcast use vstd::std_specs::vec::axiom_spec_len;

/// A message the table consumes itself.
#[derive(Clone, Copy, PartialEq, Eq, Structural, Debug)]
pub enum TableLocalMsg {
    MoveDown,
    MoveUp,
}

/// A table message: cursor movement stays local, a selected row is handed
/// to the parent for interpretation.
#[derive(Debug)]
pub enum TableMsg<T> {
    Local(TableLocalMsg),
    Outer(T),
}

/// The table never schedules deferred work.
pub type TableReturn<T> = ComponentReturn<TableMsg<T>, ()>;

/// The cursor bindings the table advertises.
pub open spec fn table_bindings() -> Seq<(Seq<char>, Seq<char>)> {
    seq![("<j/down>"@, "Down"@), ("<k/up>"@, "Up"@)]
}

/// A generic table of rows with a cursor.
#[derive(Debug)]
pub struct UiTable<T> {
    pub name: String,
    pub elements: Vec<T>,
    pub selected: Option<usize>,
    pub select_enabled: bool,
    pub show_block: bool,
}

impl<T> UiTable<T> {
    /// The cursor invariant: it points at a row, or at nothing exactly when
    /// the table is empty.
    pub open spec fn wf(&self) -> bool {
        match self.selected {
            Some(i) => i < self.elements@.len(),
            None => self.elements@.len() == 0,
        }
    }

    /// The cursor after one upward move: wraps from the first row to the
    /// last, and stays put on an empty table.
    pub open spec fn up_target(&self) -> Option<usize> {
        if self.elements@.len() == 0 {
            self.selected
        } else {
            match self.selected {
                Some(i) => Some((if i == 0 {
                    (self.elements@.len() - 1) as usize
                } else {
                    (i - 1) as usize
                }) as usize),
                None => self.selected,
            }
        }
    }

    /// The cursor after one downward move: wraps from the last row to the
    /// first, and stays put on an empty table.
    pub open spec fn down_target(&self) -> Option<usize> {
        if self.elements@.len() == 0 {
            self.selected
        } else {
            match self.selected {
                Some(i) => Some((if i + 1 == self.elements@.len() {
                    0usize
                } else {
                    (i + 1) as usize
                }) as usize),
                None => self.selected,
            }
        }
    }

    pub fn new(name: String) -> (t: UiTable<T>)
        ensures
            t.name == name,
            t.elements@ == Seq::<T>::empty(),
            t.selected is None,
            !t.select_enabled,
            !t.show_block,
            t.wf(),
    {
        let t = UiTable {
            name,
            elements: Vec::new(),
            selected: None,
            select_enabled: false,
            show_block: false,
        };
        proof {
            assert(t.elements@ =~= Seq::<T>::empty());
        }
        t
    }

    pub fn with_elements(name: String, elements: Vec<T>, show_block: bool) -> (t: UiTable<T>)
        ensures
            t.name == name,
            t.elements == elements,
            t.selected == (if elements@.len() == 0 {
                Option::<usize>::None
            } else {
                Option::<usize>::Some(0usize)
            }),
            !t.select_enabled,
            t.show_block == show_block,
            t.wf(),
    {
        let selected: Option<usize> = if elements.is_empty() {
            None
        } else {
            Some(0)
        };
        UiTable { name, elements, selected, select_enabled: false, show_block }
    }

    /// Arms selection: with selection armed, Enter on a row hands that row
    /// to the parent.  (The parent interprets the row; nothing happens
    /// before this is called.)
    pub fn on_select(self) -> (t: UiTable<T>)
        ensures
            t == (UiTable { select_enabled: true, ..self }),
    {
        UiTable { select_enabled: true, ..self }
    }

    /// The key bindings the table contributes to the help sheet: exactly
    /// [`table_bindings`].
    pub fn info_sheet(&self) -> (r: InfoSheet)
        ensures
            sheet_views(r) == table_bindings(),
    {
        let r = InfoSheet::default().key_binding("<j/down>", "Down").key_binding("<k/up>", "Up");
        proof {
            assert(sheet_views(r) =~= table_bindings());
        }
        r
    }

    /// Replaces the rows: the cursor survives when still in range, else the
    /// first row is selected, or none when the new list is empty.
    pub fn update_elements(&mut self, elements: Vec<T>)
        ensures
            final(self).elements == elements,
            final(self).selected == (if elements@.len() == 0 {
                Option::<usize>::None
            } else {
                match old(self).selected {
                    Some(i) => if i < elements@.len() {
                        Option::<usize>::Some(i)
                    } else {
                        Option::<usize>::Some(0usize)
                    },
                    None => Option::<usize>::Some(0usize),
                }
            }),
            final(self).name == old(self).name,
            final(self).select_enabled == old(self).select_enabled,
            final(self).show_block == old(self).show_block,
            final(self).wf(),
    {
        let len = elements.len();
        self.elements = elements;
        if len == 0 {
            self.selected = None;
        } else {
            match self.selected {
                Some(i) if i < len => {},
                _ => {
                    self.selected = Some(0);
                },
            }
        }
    }

    /// Moves the cursor one row up, wrapping from the first row to the
    /// last; on an empty table nothing happens.
    fn move_up(&mut self)
        requires
            old(self).wf(),
        ensures
            final(self).selected == old(self).up_target(),
            final(self).elements == old(self).elements,
            final(self).name == old(self).name,
            final(self).select_enabled == old(self).select_enabled,
            final(self).show_block == old(self).show_block,
            final(self).wf(),
    {
        match self.selected {
            Some(i) => {
                let new_pos = if i == 0 {
                    self.elements.len() - 1
                } else {
                    i - 1
                };
                self.selected = Some(new_pos);
            },
            None => {},
        }
    }

    /// Moves the cursor one row down, wrapping from the last row to the
    /// first; on an empty table nothing happens.
    fn move_down(&mut self)
        requires
            old(self).wf(),
        ensures
            final(self).selected == old(self).down_target(),
            final(self).elements == old(self).elements,
            final(self).name == old(self).name,
            final(self).select_enabled == old(self).select_enabled,
            final(self).show_block == old(self).show_block,
            final(self).wf(),
    {
        match self.selected {
            Some(i) => {
                let new_pos = if i == self.elements.len() - 1 {
                    0
                } else {
                    i + 1
                };
                self.selected = Some(new_pos);
            },
            None => {},
        }
    }

    /// The rows on display.
    pub fn elements(&self) -> (r: &Vec<T>)
        ensures
            *r == self.elements,
    {
        &self.elements
    }
}

/// The messages a key press produces on a table: Enter hands the selected
/// row outward when selection is armed, j/k and the arrow keys move the
/// cursor, anything else is ignored.
pub open spec fn table_key_msgs<T: Clone>(t: UiTable<T>, key: KeyEvent, msgs: Seq<TableMsg<T>>) -> bool {
    match key.code {
        KeyCode::Enter => {
            if t.select_enabled && t.selected is Some {
                msgs.len() == 1 && (msgs[0] matches TableMsg::Outer(row) && cloned::<T>(
                    t.elements@[t.selected->0 as int],
                    row,
                ))
            } else {
                msgs == Seq::<TableMsg<T>>::empty()
            }
        },
        KeyCode::Char('j') | KeyCode::Down => msgs == seq![
            TableMsg::<T>::Local(TableLocalMsg::MoveDown),
        ],
        KeyCode::Char('k') | KeyCode::Up => msgs == seq![TableMsg::<T>::Local(TableLocalMsg::MoveUp)],
        _ => msgs == Seq::<TableMsg<T>>::empty(),
    }
}

impl<T: Clone> UiTable<T> {
    /// Turns a key press into table messages, as [`table_key_msgs`] states.
    pub fn handle_key(&self, key: KeyEvent) -> (msgs: Vec<TableMsg<T>>)
        requires
            self.wf(),
        ensures
            table_key_msgs(*self, key, msgs@),
    {
        let mut msgs: Vec<TableMsg<T>> = Vec::new();
        proof {
            assert(msgs@ =~= Seq::<TableMsg<T>>::empty());
        }
        match key.code {
            KeyCode::Enter => {
                if self.select_enabled {
                    match self.selected {
                        Some(i) => {
                            let row = self.elements[i].clone();
                            msgs.push(TableMsg::Outer(row));
                            proof {
                                assert(msgs@.len() == 1);
                            }
                        },
                        None => {},
                    }
                }
            },
            KeyCode::Char(c) => {
                if c == 'j' {
                    msgs.push(TableMsg::Local(TableLocalMsg::MoveDown));
                    proof {
                        assert(msgs@ =~= seq![TableMsg::<T>::Local(TableLocalMsg::MoveDown)]);
                    }
                } else if c == 'k' {
                    msgs.push(TableMsg::Local(TableLocalMsg::MoveUp));
                    proof {
                        assert(msgs@ =~= seq![TableMsg::<T>::Local(TableLocalMsg::MoveUp)]);
                    }
                }
            },
            KeyCode::Down => {
                msgs.push(TableMsg::Local(TableLocalMsg::MoveDown));
                proof {
                    assert(msgs@ =~= seq![TableMsg::<T>::Local(TableLocalMsg::MoveDown)]);
                }
            },
            KeyCode::Up => {
                msgs.push(TableMsg::Local(TableLocalMsg::MoveUp));
                proof {
                    assert(msgs@ =~= seq![TableMsg::<T>::Local(TableLocalMsg::MoveUp)]);
                }
            },
            _ => {},
        }
        msgs
    }

    /// Raw-input entry point of the component contract: a key press is
    /// handled as [`table_key_msgs`] states.
    pub fn handle_event(&self, evt: ComponentEvent) -> (msgs: Vec<TableMsg<T>>)
        requires
            self.wf(),
        ensures
            match evt {
                ComponentEvent::Key(key) => table_key_msgs(*self, key, msgs@),
            },
    {
        match evt {
            ComponentEvent::Key(key) => self.handle_key(key),
        }
    }

    /// Processes one table message: cursor moves mutate the cursor, an
    /// outward message is not the table's to interpret.
    pub fn update(&mut self, msg: TableMsg<T>) -> (r: TableReturn<T>)
        requires
            old(self).wf(),
        ensures
            final(self).elements == old(self).elements,
            final(self).name == old(self).name,
            final(self).select_enabled == old(self).select_enabled,
            final(self).show_block == old(self).show_block,
            final(self).wf(),
            r.is_empty(),
            final(self).selected == match msg {
                TableMsg::Local(TableLocalMsg::MoveUp) => old(self).up_target(),
                TableMsg::Local(TableLocalMsg::MoveDown) => old(self).down_target(),
                TableMsg::Outer(_) => old(self).selected,
            },
    {
        match msg {
            TableMsg::Local(TableLocalMsg::MoveDown) => self.move_down(),
            TableMsg::Local(TableLocalMsg::MoveUp) => self.move_up(),
            TableMsg::Outer(_) => {},
        }
        ComponentReturn::empty()
    }
}

/// Wraparound of the cursor: on a non-empty table, moving up from the first
/// row selects the last, moving down from the last selects the first, and
/// on an empty table both moves leave the cursor unset.
pub proof fn lemma_cursor_wraparound<T>(t: UiTable<T>)
    requires
        t.wf(),
    ensures
        t.elements@.len() > 0 && t.selected == Some(0usize) ==> (t.up_target() matches Some(j)
            && j == t.elements@.len() - 1),
        (t.selected matches Some(i) && i + 1 == t.elements@.len()) ==> t.down_target() == Some(
            0usize,
        ),
        t.elements@.len() == 0 ==> t.up_target() == t.selected && t.down_target() == t.selected
            && t.selected is None,
{
    assert(t.elements.len() == t.elements@.len());
}

} // verus!
