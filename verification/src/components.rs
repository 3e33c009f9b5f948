//! The component runtime: the uniform update-result shape, the cross-cutting
//! actions a component may request of its owner, and the components
//! themselves.
//!
//! Every component follows one contract: `handle_event` turns a raw input
//! event into messages without touching state; `update` processes one
//! message, mutating only the component's own state, and returns a
//! [`ComponentReturn`] carrying follow-up messages, bubbled actions and
//! deferred commands.  A parent forwards a child's messages by wrapping them
//! in its own message type; the child's `Local` messages stay invisible to
//! the grandparent.

use vstd::prelude::*;

use crate::types::nav::Nav;
use crate::types::notification::Notification;

pub mod agreements;
pub mod connectors;
pub mod dataplanes;
pub mod edrs;
pub mod entries;
pub mod footer;
pub mod header;
pub mod launch_bar;
pub mod resources;
pub mod table;

verus! {

/// A side effect a component asks of the top-level owner instead of
/// mutating shared state itself.
#[derive(Debug)]
pub enum Action {
    /// Switch the interface to a menu entry.
    NavTo(Nav),
    /// Recompute the help sheet after a focus or view change.
    ChangeSheet,
    /// Show a timed notification banner.
    Notification(Notification),
}

/// A request to show a notification banner, or the later expiry of its
/// timer.
#[derive(Debug)]
pub enum NotificationMsg {
    Show(Notification),
    Clear,
}

/// The outcome of processing one message: follow-up messages for the same
/// component, actions bubbled to the owner, and commands describing
/// deferred work (a network fetch, a timer) for the host to execute.
pub struct ComponentReturn<M, C> {
    pub msgs: Vec<M>,
    pub actions: Vec<Action>,
    pub cmds: Vec<C>,
}

impl<M, C> ComponentReturn<M, C> {
    /// No effect.
    pub fn empty() -> (r: ComponentReturn<M, C>)
        ensures
            r.msgs@ == Seq::<M>::empty(),
            r.actions@ == Seq::<Action>::empty(),
            r.cmds@ == Seq::<C>::empty(),
    {
        let r = ComponentReturn { msgs: Vec::new(), actions: Vec::new(), cmds: Vec::new() };
        proof {
            assert(r.msgs@ =~= Seq::<M>::empty());
            assert(r.actions@ =~= Seq::<Action>::empty());
            assert(r.cmds@ =~= Seq::<C>::empty());
        }
        r
    }

    /// One follow-up message.
    pub fn msg(m: M) -> (r: ComponentReturn<M, C>)
        ensures
            r.msgs@ == seq![m],
            r.actions@ == Seq::<Action>::empty(),
            r.cmds@ == Seq::<C>::empty(),
    {
        let mut r = Self::empty();
        r.msgs.push(m);
        proof {
            assert(r.msgs@ =~= seq![m]);
        }
        r
    }

    /// One bubbled action.
    pub fn action(a: Action) -> (r: ComponentReturn<M, C>)
        ensures
            r.msgs@ == Seq::<M>::empty(),
            r.actions@ == seq![a],
            r.cmds@ == Seq::<C>::empty(),
    {
        let mut r = Self::empty();
        r.actions.push(a);
        proof {
            assert(r.actions@ =~= seq![a]);
        }
        r
    }

    /// One deferred command.
    pub fn cmd(c: C) -> (r: ComponentReturn<M, C>)
        ensures
            r.msgs@ == Seq::<M>::empty(),
            r.actions@ == Seq::<Action>::empty(),
            r.cmds@ == seq![c],
    {
        let mut r = Self::empty();
        r.cmds.push(c);
        proof {
            assert(r.cmds@ =~= seq![c]);
        }
        r
    }

    /// Whether the result carries nothing at all.
    pub open spec fn is_empty(&self) -> bool {
        &&& self.msgs@ == Seq::<M>::empty()
        &&& self.actions@ == Seq::<Action>::empty()
        &&& self.cmds@ == Seq::<C>::empty()
    }
}

} // verus!
