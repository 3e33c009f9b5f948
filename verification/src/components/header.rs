//! The header: the menu bar and the help sheet.  Tab and shift-tab cycle
//! through the menu entries with wraparound.

use vstd::prelude::*;

use crate::components::{Action, ComponentReturn};
use crate::input::{ComponentEvent, KeyCode, KeyEvent, KeyModifiers};
use crate::types::info::InfoSheet;
use crate::types::nav::{Menu, MENU_COUNT};

verus! {

/// A header message: move to the next or the previous menu entry.
#[derive(Clone, Copy, PartialEq, Eq, Structural, Debug)]
pub enum HeaderMsg {
    NextTab,
    PrevTab,
}

/// The messages a key press produces in the header: plain Tab cycles
/// forward, shift-tab back, nothing else is the header's.
pub open spec fn header_key_msgs(key: KeyEvent) -> Seq<HeaderMsg> {
    if key.code == KeyCode::Tab && key.modifiers == KeyModifiers::Empty {
        seq![HeaderMsg::NextTab]
    } else if key.code == KeyCode::BackTab && key.modifiers == KeyModifiers::Shift {
        seq![HeaderMsg::PrevTab]
    } else {
        Seq::<HeaderMsg>::empty()
    }
}

/// The selected menu entry and the help sheet on display.
pub struct HeaderComponent {
    pub menu: Menu,
    pub sheet: InfoSheet,
}

impl HeaderComponent {
    pub fn with_sheet(sheet: InfoSheet) -> (h: HeaderComponent)
        ensures
            h.menu == Menu::Connectors,
            h.sheet == sheet,
    {
        HeaderComponent { menu: Menu::default(), sheet }
    }

    pub fn set_selected_menu(&mut self, menu: Menu)
        ensures
            final(self).menu == menu,
            final(self).sheet == old(self).sheet,
    {
        self.menu = menu;
    }

    pub fn update_sheet(&mut self, sheet: InfoSheet)
        ensures
            final(self).menu == old(self).menu,
            final(self).sheet == sheet,
    {
        self.sheet = sheet;
    }

    pub fn selected_menu(&self) -> (m: Menu)
        ensures
            m == self.menu,
    {
        self.menu
    }

    /// Processes one header message: the menu moves one entry forward or
    /// back, wrapping at either end, and the owner is asked to navigate to
    /// the new entry.
    pub fn update(&mut self, msg: HeaderMsg) -> (r: ComponentReturn<HeaderMsg, ()>)
        ensures
            final(self).sheet == old(self).sheet,
            final(self).menu.spec_ordinal() == (match msg {
                HeaderMsg::NextTab => (old(self).menu.spec_ordinal() + 1) % (MENU_COUNT as int),
                HeaderMsg::PrevTab => (old(self).menu.spec_ordinal() + (MENU_COUNT as int) - 1) % (
                MENU_COUNT as int),
            }),
            r.msgs@ == Seq::<HeaderMsg>::empty(),
            r.cmds@ == Seq::<()>::empty(),
            r.actions@ == seq![Action::NavTo(final(self).menu.spec_to_nav())],
    {
        match msg {
            HeaderMsg::NextTab => {
                let idx = (self.menu.ordinal() + 1) % MENU_COUNT;
                match Menu::from_ordinal(idx) {
                    Some(m) => {
                        self.menu = m;
                    },
                    None => {
                        proof {
                            assert(false);
                        }
                    },
                }
            },
            HeaderMsg::PrevTab => {
                let initial = if self.menu.ordinal() == 0 {
                    MENU_COUNT
                } else {
                    self.menu.ordinal()
                };
                let idx = (initial - 1) % MENU_COUNT;
                match Menu::from_ordinal(idx) {
                    Some(m) => {
                        self.menu = m;
                    },
                    None => {
                        proof {
                            assert(false);
                        }
                    },
                }
            },
        }
        ComponentReturn::action(Action::NavTo(self.menu.to_nav()))
    }

    /// Turns a key press into header messages, as [`header_key_msgs`]
    /// states.
    pub fn handle_key(&self, key: KeyEvent) -> (msgs: Vec<HeaderMsg>)
        ensures
            msgs@ == header_key_msgs(key),
    {
        let mut msgs: Vec<HeaderMsg> = Vec::new();
        proof {
            assert(msgs@ =~= Seq::<HeaderMsg>::empty());
        }
        match (key.code, key.modifiers) {
            (KeyCode::Tab, KeyModifiers::Empty) => {
                msgs.push(HeaderMsg::NextTab);
                proof {
                    assert(msgs@ =~= seq![HeaderMsg::NextTab]);
                }
            },
            (KeyCode::BackTab, KeyModifiers::Shift) => {
                msgs.push(HeaderMsg::PrevTab);
                proof {
                    assert(msgs@ =~= seq![HeaderMsg::PrevTab]);
                }
            },
            _ => {},
        }
        msgs
    }

    /// Raw-input entry point of the component contract.
    pub fn handle_event(&self, evt: ComponentEvent) -> (msgs: Vec<HeaderMsg>)
        ensures
            match evt {
                ComponentEvent::Key(key) => msgs@ == header_key_msgs(key),
            },
    {
        match evt {
            ComponentEvent::Key(key) => self.handle_key(key),
        }
    }
}

/// Cycling the menu wraps around in both directions: one step forward from
/// the last entry reaches the first, one step back from the first reaches
/// the last, and a forward step followed by a back step is a round trip.
pub proof fn lemma_menu_cycling(m: Menu)
    ensures
        m.spec_ordinal() + 1 == MENU_COUNT as int ==> (m.spec_ordinal() + 1) % (MENU_COUNT as int)
            == 0,
        m.spec_ordinal() == 0 ==> (m.spec_ordinal() + (MENU_COUNT as int) - 1) % (
        MENU_COUNT as int) == MENU_COUNT - 1,
        ((m.spec_ordinal() + 1) % (MENU_COUNT as int) + (MENU_COUNT as int) - 1) % (
        MENU_COUNT as int) == m.spec_ordinal(),
{
}

} // verus!
