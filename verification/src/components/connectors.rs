//! The connector list: the entry screen where the operator chooses which
//! connector the resource browsers talk to.

use vstd::prelude::*;

use crate::components::table::{TableLocalMsg, TableMsg, UiTable};
use crate::components::ComponentReturn;
use crate::input::{ComponentEvent, KeyCode, KeyEvent};
use crate::types::connector::Connector;
use crate::types::info::{sheet_views, InfoSheet};

verus! {

/// A connector-list message: all of them are table messages; a row handed
/// outward by the table becomes the selected connector.
#[derive(Debug)]
pub enum ConnectorsMsg {
    Table(TableMsg<Connector>),
}

/// The messages a key press produces in the connector list: the table's
/// messages, each wrapped as the list's own.
pub open spec fn connectors_key_msgs(
    c: ConnectorsComponent,
    key: KeyEvent,
    msgs: Seq<ConnectorsMsg>,
) -> bool {
    match key.code {
        KeyCode::Enter => {
            if c.table.select_enabled && c.table.selected is Some {
                msgs.len() == 1 && (msgs[0] matches ConnectorsMsg::Table(TableMsg::Outer(row))
                    && cloned::<Connector>(c.table.elements@[c.table.selected->0 as int], row))
            } else {
                msgs == Seq::<ConnectorsMsg>::empty()
            }
        },
        KeyCode::Char('j') | KeyCode::Down => msgs == seq![
            ConnectorsMsg::Table(TableMsg::Local(TableLocalMsg::MoveDown)),
        ],
        KeyCode::Char('k') | KeyCode::Up => msgs == seq![
            ConnectorsMsg::Table(TableMsg::Local(TableLocalMsg::MoveUp)),
        ],
        _ => msgs == Seq::<ConnectorsMsg>::empty(),
    }
}

/// The bindings the connector list advertises: the table's cursor moves
/// plus connector selection.
pub open spec fn connectors_bindings() -> Seq<(Seq<char>, Seq<char>)> {
    crate::components::table::table_bindings().push(("<enter>"@, "Select connector"@))
}

/// One step of the connector list: how each message changes it.  It never
/// produces messages, actions or commands of its own.
pub open spec fn connectors_step(
    pre: ConnectorsComponent,
    post: ConnectorsComponent,
    msg: ConnectorsMsg,
) -> bool {
    &&& post.table.elements == pre.table.elements
    &&& match msg {
        ConnectorsMsg::Table(TableMsg::Local(TableLocalMsg::MoveUp)) => {
            &&& post.table.selected == pre.table.up_target()
            &&& post.selected == pre.selected
        },
        ConnectorsMsg::Table(TableMsg::Local(TableLocalMsg::MoveDown)) => {
            &&& post.table.selected == pre.table.down_target()
            &&& post.selected == pre.selected
        },
        ConnectorsMsg::Table(TableMsg::Outer(conn)) => {
            &&& post.selected == Some(conn)
            &&& post.table.selected == pre.table.selected
        },
    }
}

/// The table of configured connectors and the one the operator selected.
#[derive(Debug)]
pub struct ConnectorsComponent {
    pub table: UiTable<Connector>,
    pub selected: Option<Connector>,
}

impl ConnectorsComponent {
    /// The component's invariant: a sound table cursor.
    pub open spec fn wf(&self) -> bool {
        self.table.wf()
    }

    pub fn new(connectors: Vec<Connector>) -> (c: ConnectorsComponent)
        ensures
            c.wf(),
            c.table.elements == connectors,
            c.selected is None,
            c.table.select_enabled,
    {
        let table = UiTable::with_elements("Connectors".to_owned(), connectors, true).on_select();
        ConnectorsComponent { table, selected: None }
    }

    /// The connector the operator selected, if any.
    pub fn selected(&self) -> (r: &Option<Connector>)
        ensures
            *r == self.selected,
    {
        &self.selected
    }

    /// The key bindings the connector list contributes to the help sheet:
    /// exactly [`connectors_bindings`].
    pub fn info_sheet(&self) -> (r: InfoSheet)
        ensures
            sheet_views(r) == connectors_bindings(),
    {
        self.table.info_sheet().key_binding("<enter>", "Select connector")
    }

    /// Processes one message, as [`connectors_step`] states: cursor moves
    /// stay in the table, a row the table hands outward becomes the
    /// selected connector.
    pub fn update(&mut self, msg: ConnectorsMsg) -> (r: ComponentReturn<ConnectorsMsg, ()>)
        requires
            old(self).wf(),
        ensures
            final(self).wf(),
            r.is_empty(),
            connectors_step(*old(self), *final(self), msg),
    {
        match msg {
            ConnectorsMsg::Table(TableMsg::Outer(conn)) => {
                self.selected = Some(conn);
                ComponentReturn::empty()
            },
            ConnectorsMsg::Table(tm) => {
                self.table.update(tm);
                ComponentReturn::empty()
            },
        }
    }

    /// Turns a key press into connector-list messages, as
    /// [`connectors_key_msgs`] states.
    pub fn handle_event(&self, evt: ComponentEvent) -> (msgs: Vec<ConnectorsMsg>)
        requires
            self.wf(),
        ensures
            match evt {
                ComponentEvent::Key(key) => connectors_key_msgs(*self, key, msgs@),
            },
    {
        let ComponentEvent::Key(key) = evt;
        let mut tmsgs = self.table.handle_key(key);
        let ghost orig = tmsgs@;
        let mut msgs: Vec<ConnectorsMsg> = Vec::new();
        proof {
            assert(msgs@ =~= Seq::<ConnectorsMsg>::empty());
            assert(tmsgs@ =~= orig.subrange(0, orig.len() as int));
        }
        #[verifier::loop_isolation(false)]
        while tmsgs.len() > 0
            invariant
                msgs@.len() + tmsgs@.len() == orig.len(),
                tmsgs@ == orig.subrange(msgs@.len() as int, orig.len() as int),
                forall|k: int|
                    0 <= k < msgs@.len() ==> #[trigger] msgs@[k] == ConnectorsMsg::Table(orig[k]),
            decreases tmsgs@.len(),
        {
            let ghost done = msgs@.len() as int;
            let m = tmsgs.remove(0);
            proof {
                assert(m == orig[done]);
                assert(tmsgs@ =~= orig.subrange(done + 1, orig.len() as int));
            }
            msgs.push(ConnectorsMsg::Table(m));
        }
        proof {
            if msgs@.len() == 0 {
                assert(msgs@ =~= Seq::<ConnectorsMsg>::empty());
            }
            if msgs@.len() == 1 {
                assert(msgs@ =~= seq![msgs@[0]]);
            }
        }
        msgs
    }
}

} // verus!
