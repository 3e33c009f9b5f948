//! The generic resource browser: a table of row projections, a detail view,
//! and a query editor, composed around the fetch / paginate / filter /
//! select protocol.  Network work is described by command values; the host
//! runs them and feeds the completion messages back in.

use vstd::prelude::*;

use crate::components::resources::filter::{
    parse_ok, parse_result, set_query_values, Filter, FilterFormMsg, FilterLocalMsg, FilterMsg,
};
use crate::components::resources::msg::ResourcesMsg;
use crate::components::resources::resource::ResourceComponent;
use crate::components::table::{TableLocalMsg, TableMsg, UiTable};
use crate::components::{Action, ComponentReturn};
use crate::input::{ComponentEvent, KeyCode, KeyEvent};
use crate::query::{Query, QueryView};
use crate::types::connector::Connector;
use crate::types::info::{sheet_views, InfoSheet};
use crate::types::notification::{Notification, NotificationKind};
use crate::widgets::form::msg::{FormLocalMsg, FormMsg};

pub mod filter;
pub mod msg;
pub mod resource;

verus! {

broadcast use vstd::std_specs::vec::axiom_spec_len;

/// Which of the browser's two views holds the focus.
#[derive(Clone, Copy, PartialEq, Eq, Structural, Debug)]
pub enum Focus {
    ResourceList,
    Resource,
}

/// A deferred unit of work of a browser: fetch the collection for a query,
/// or fetch one row's detail.  The command owns copies of everything it
/// needs, so running it cannot race against later state changes.
#[derive(Debug)]
pub enum ResourceCmd<T> {
    FetchCollection { connector: Connector, query: Query },
    FetchDetail { connector: Connector, row: T },
}

/// What a browser's update step returns.
pub type ResourcesReturn<T, R> = ComponentReturn<ResourcesMsg<T, R>, ResourceCmd<T>>;

/// A resource shown in the detail view: an identifier, a title for the
/// category, and named fields.
pub trait DrawableResource {
    fn id(&self) -> &str;

    fn title() -> &'static str;

    fn fields(&self) -> Vec<Field>;
}

/// One named value of a resource's detail view.
#[derive(Debug)]
pub struct Field {
    pub name: String,
    pub value: FieldValue,
}

impl Field {
    pub fn new(name: String, value: FieldValue) -> (f: Field)
        ensures
            f == (Field { name, value }),
    {
        Field { name, value }
    }

    /// A plain string field.
    pub fn string(name: &str, value: &str) -> (f: Field)
        ensures
            f.name@ == name@,
            f.value matches FieldValue::Str(s) && s@ == value@,
    {
        Field { name: name.to_owned(), value: FieldValue::Str(value.to_owned()) }
    }
}

/// A field's value: a plain string, or a string that renders as a document.
#[derive(Debug)]
pub enum FieldValue {
    Str(String),
    Json(String),
}

impl FieldValue {
    /// The value's text, whatever its kind.
    pub fn as_str(&self) -> (r: &str)
        ensures
            match self {
                FieldValue::Str(s) => r@ == s@,
                FieldValue::Json(s) => r@ == s@,
            },
    {
        match self {
            FieldValue::Str(s) => s.as_str(),
            FieldValue::Json(s) => s.as_str(),
        }
    }
}

/// The pagination and filtering bindings of the list view.
pub open spec fn pagination_bindings() -> Seq<(Seq<char>, Seq<char>)> {
    seq![
        ("<n>"@, "Next Page"@),
        ("<p>"@, "Prev page"@),
        ("<r>"@, "Refresh page"@),
        ("<f>"@, "Filters"@),
    ]
}

/// The bindings a browser advertises: context-sensitive between its list
/// view (cursor moves plus pagination and filtering) and its detail view.
pub open spec fn browser_bindings<T, R>(b: ResourcesComponent<T, R>) -> Seq<(Seq<char>, Seq<char>)> {
    match b.focus {
        Focus::ResourceList => crate::components::table::table_bindings() + pagination_bindings(),
        Focus::Resource => crate::components::resources::resource::detail_bindings(),
    }
}

/// The browser: list and detail views, the query editor, the active query
/// and the bound connector.
#[derive(Debug)]
pub struct ResourcesComponent<T, R> {
    pub table: UiTable<T>,
    pub resource: ResourceComponent<R>,
    pub filter: Filter,
    pub query: Query,
    pub focus: Focus,
    pub show_filters: bool,
    pub connector: Option<Connector>,
}

/// The constraints a browser message must satisfy: a query handed in from
/// outside is sound and fits the editor's two criterion rows.
pub open spec fn msg_ok<T, R>(msg: ResourcesMsg<T, R>) -> bool {
    &&& (msg matches ResourcesMsg::ChangeQuery(q) ==> q.wf() && q.filter_expression@.len() <= 2)
    &&& (msg matches ResourcesMsg::FilterMsg(FilterMsg::Local(FilterLocalMsg::FilterForm(
        FilterFormMsg::Changed(q),
    ))) ==> q.wf())
}

/// Nothing changed, and the unchanged active query was asked for again:
/// what one Refresh does.
pub open spec fn refresh_step<T, R>(
    pre: ResourcesComponent<T, R>,
    post: ResourcesComponent<T, R>,
    issued: Seq<ResourceCmd<T>>,
) -> bool {
    &&& post == pre
    &&& match pre.connector {
        Some(c) => issued.len() == 1 && (issued[0] matches ResourceCmd::FetchCollection {
            connector,
            query,
        } && connector == c && query@ == pre.query@),
        None => issued.len() == 0,
    }
}

/// What one Next-page does: a fetch one page further is issued exactly when
/// the last page was full (and the new offset still fits the page counter);
/// otherwise nothing happens.
pub open spec fn next_page_step<T, R>(
    pre: ResourcesComponent<T, R>,
    post: ResourcesComponent<T, R>,
    issued: Seq<ResourceCmd<T>>,
) -> bool {
    if pre.table.elements@.len() == pre.query.limit && pre.query.offset + pre.query.limit
        <= u32::MAX {
        &&& post.query@ == (QueryView {
            offset: (pre.query.offset + pre.query.limit) as u32,
            ..pre.query@
        })
        &&& post.table == pre.table
        &&& post.resource == pre.resource
        &&& post.filter == pre.filter
        &&& post.focus == pre.focus
        &&& post.show_filters == pre.show_filters
        &&& post.connector == pre.connector
        &&& match pre.connector {
            Some(c) => issued.len() == 1 && (issued[0] matches ResourceCmd::FetchCollection {
                connector,
                query,
            } && connector == c && query@ == post.query@),
            None => issued.len() == 0,
        }
    } else {
        post == pre && issued.len() == 0
    }
}

/// What one Previous-page does: a fetch one page back is issued exactly
/// when the browser is past the first page; otherwise nothing happens.
pub open spec fn prev_page_step<T, R>(
    pre: ResourcesComponent<T, R>,
    post: ResourcesComponent<T, R>,
    issued: Seq<ResourceCmd<T>>,
) -> bool {
    if pre.query.offset > 0 {
        &&& post.query@ == (QueryView {
            offset: (pre.query.offset - pre.query.limit) as u32,
            ..pre.query@
        })
        &&& post.table == pre.table
        &&& post.resource == pre.resource
        &&& post.filter == pre.filter
        &&& post.focus == pre.focus
        &&& post.show_filters == pre.show_filters
        &&& post.connector == pre.connector
        &&& match pre.connector {
            Some(c) => issued.len() == 1 && (issued[0] matches ResourceCmd::FetchCollection {
                connector,
                query,
            } && connector == c && query@ == post.query@),
            None => issued.len() == 0,
        }
    } else {
        post == pre && issued.len() == 0
    }
}

/// One step of the browser: how each message changes the state and what
/// messages, actions and commands come back.  `ResourcesComponent::update`
/// ensures exactly this relation.
pub open spec fn browser_step<T, R>(
    pre: ResourcesComponent<T, R>,
    post: ResourcesComponent<T, R>,
    msg: ResourcesMsg<T, R>,
    msgs: Seq<ResourcesMsg<T, R>>,
    actions: Seq<Action>,
    cmds: Seq<ResourceCmd<T>>,
) -> bool {
    match msg {
                ResourcesMsg::ResourceFetched(resource) => {
                    &&& post.resource.resource == Some(resource)
                    &&& post.focus == Focus::Resource
                    &&& post.table == pre.table
                    &&& post.query == pre.query
                    &&& post.filter == pre.filter
                    &&& post.show_filters == pre.show_filters
                    &&& post.connector == pre.connector
                    &&& actions == seq![Action::ChangeSheet]
                    &&& msgs == Seq::<ResourcesMsg<T, R>>::empty()
                    &&& cmds == Seq::<ResourceCmd<T>>::empty()
                },
                ResourcesMsg::ResourceSelected(selected) => {
                    &&& post == pre
                    &&& msgs == Seq::<ResourcesMsg<T, R>>::empty()
                    &&& actions == Seq::<Action>::empty()
                    &&& match pre.connector {
                        Some(c) => cmds.len() == 1 && (cmds[0]
                            matches ResourceCmd::FetchDetail { connector, row } && connector == c
                            && row == selected),
                        None => cmds == Seq::<ResourceCmd<T>>::empty(),
                    }
                },
                ResourcesMsg::TableMsg(tm) => {
                    &&& post.table.elements == pre.table.elements
                    &&& post.table.selected == (match tm {
                        TableMsg::Local(TableLocalMsg::MoveUp) => pre.table.up_target(),
                        TableMsg::Local(TableLocalMsg::MoveDown) => pre.table.down_target(),
                        TableMsg::Outer(_) => pre.table.selected,
                    })
                    &&& post.resource == pre.resource
                    &&& post.query == pre.query
                    &&& post.filter == pre.filter
                    &&& post.focus == pre.focus
                    &&& post.show_filters == pre.show_filters
                    &&& post.connector == pre.connector
                    &&& (msgs == Seq::<ResourcesMsg<T, R>>::empty() && actions == Seq::<Action>::empty() && cmds == Seq::<ResourceCmd<T>>::empty())
                },
                ResourcesMsg::FilterMsg(fm) => {
                    &&& post.table == pre.table
                    &&& post.resource == pre.resource
                    &&& post.query == pre.query
                    &&& post.focus == pre.focus
                    &&& post.show_filters == pre.show_filters
                    &&& post.connector == pre.connector
                    &&& actions == Seq::<Action>::empty()
                    &&& cmds == Seq::<ResourceCmd<T>>::empty()
                    &&& (fm matches FilterMsg::Local(FilterLocalMsg::Form(
                        FormMsg::Local(FormLocalMsg::Submit),
                    )) ==> {
                        &&& if parse_ok(pre.filter.form.fields@) {
                            &&& post.filter.error is None
                            &&& msgs.len() == 1
                            &&& (msgs[0] matches ResourcesMsg::ChangeQuery(q) && parse_result(
                                pre.filter.form.fields@,
                                Ok(q),
                            ))
                        } else {
                            &&& msgs == Seq::<ResourcesMsg<T, R>>::empty()
                            &&& (post.filter.error matches Some(e) && parse_result(
                                pre.filter.form.fields@,
                                Err(e),
                            ))
                            &&& post.filter.query@ == pre.filter.query@
                        }
                    })
                },
                ResourcesMsg::ResourcesFetched(resources) => {
                    &&& post.table.elements == resources
                    &&& post.resource == pre.resource
                    &&& post.query == pre.query
                    &&& post.filter == pre.filter
                    &&& post.focus == pre.focus
                    &&& post.show_filters == pre.show_filters
                    &&& post.connector == pre.connector
                    &&& (msgs == Seq::<ResourcesMsg<T, R>>::empty() && actions == Seq::<Action>::empty() && cmds == Seq::<ResourceCmd<T>>::empty())
                },
                ResourcesMsg::ShowFilters => {
                    &&& post.show_filters
                    &&& set_query_values(post.filter.form.fields@, pre.query)
                    &&& post.table == pre.table
                    &&& post.resource == pre.resource
                    &&& post.query == pre.query
                    &&& post.filter.query@ == pre.filter.query@
                    &&& post.focus == pre.focus
                    &&& post.connector == pre.connector
                    &&& (msgs == Seq::<ResourcesMsg<T, R>>::empty() && actions == Seq::<Action>::empty() && cmds == Seq::<ResourceCmd<T>>::empty())
                },
                ResourcesMsg::HideFilters => {
                    &&& post == (ResourcesComponent { show_filters: false, ..pre })
                    &&& (msgs == Seq::<ResourcesMsg<T, R>>::empty() && actions == Seq::<Action>::empty() && cmds == Seq::<ResourceCmd<T>>::empty())
                },
                ResourcesMsg::Back => {
                    &&& post == (ResourcesComponent {
                        focus: Focus::ResourceList,
                        ..pre
                    })
                    &&& actions == seq![Action::ChangeSheet]
                    &&& msgs == Seq::<ResourcesMsg<T, R>>::empty()
                    &&& cmds == Seq::<ResourceCmd<T>>::empty()
                },
                ResourcesMsg::NextPage => {
                    &&& next_page_step(pre, post, cmds)
                    &&& msgs == Seq::<ResourcesMsg<T, R>>::empty()
                    &&& actions == Seq::<Action>::empty()
                },
                ResourcesMsg::PrevPage => {
                    &&& prev_page_step(pre, post, cmds)
                    &&& msgs == Seq::<ResourcesMsg<T, R>>::empty()
                    &&& actions == Seq::<Action>::empty()
                },
                ResourcesMsg::RefreshPage => {
                    &&& refresh_step(pre, post, cmds)
                    &&& msgs == Seq::<ResourcesMsg<T, R>>::empty()
                    &&& actions == Seq::<Action>::empty()
                },
                ResourcesMsg::ChangeQuery(query) => {
                    &&& !post.show_filters
                    &&& post.query@ == query@
                    &&& post.table == pre.table
                    &&& post.resource == pre.resource
                    &&& post.filter == pre.filter
                    &&& post.focus == pre.focus
                    &&& post.connector == pre.connector
                    &&& msgs == Seq::<ResourcesMsg<T, R>>::empty()
                    &&& actions == Seq::<Action>::empty()
                    &&& match pre.connector {
                        Some(c) => cmds.len() == 1 && (cmds[0]
                            matches ResourceCmd::FetchCollection { connector, query: q2 }
                            && connector == c && q2@ == query@),
                        None => cmds == Seq::<ResourceCmd<T>>::empty(),
                    }
                },
                ResourcesMsg::ResourcesFetchFailed(error) => {
                    &&& post == pre
                    &&& msgs == Seq::<ResourcesMsg<T, R>>::empty()
                    &&& cmds == Seq::<ResourceCmd<T>>::empty()
                    &&& actions.len() == 1
                    &&& (actions[0] matches Action::Notification(n) && n.text == error && n.kind
                        == NotificationKind::Error && n.timeout
                        == crate::types::notification::DEFAULT_NOTIFICATION_TIMEOUT)
                },
            }
}

impl<T, R> ResourcesComponent<T, R> {
    /// The browser's invariant: a sound table cursor, a sound editor, and
    /// an active query that is sound and fits the editor's two criterion
    /// rows.
    pub open spec fn wf(&self) -> bool {
        &&& self.table.wf()
        &&& self.filter.wf()
        &&& self.query.wf()
        &&& self.query.filter_expression@.len() <= 2
    }

    /// The key bindings of whichever view holds the focus: exactly
    /// [`browser_bindings`].
    pub fn info_sheet(&self) -> (r: InfoSheet)
        ensures
            sheet_views(r) == browser_bindings(*self),
    {
        match self.focus {
            Focus::ResourceList => self.table.info_sheet().merge(self.pagination_sheet()),
            Focus::Resource => self.resource.info_sheet(),
        }
    }

    /// The pagination and filtering bindings of the list view: exactly
    /// [`pagination_bindings`].
    fn pagination_sheet(&self) -> (r: InfoSheet)
        ensures
            sheet_views(r) == pagination_bindings(),
    {
        let r = InfoSheet::default().key_binding("<n>", "Next Page").key_binding(
            "<p>",
            "Prev page",
        ).key_binding("<r>", "Refresh page").key_binding("<f>", "Filters");
        proof {
            assert(sheet_views(r) =~= pagination_bindings());
        }
        r
    }

    /// The deferred collection fetch for the active query, if a connector
    /// is bound.
    fn fetch(&self) -> (r: ResourcesReturn<T, R>)
        ensures
            r.msgs@ == Seq::<ResourcesMsg<T, R>>::empty(),
            r.actions@ == Seq::<Action>::empty(),
            match self.connector {
                Some(c) => r.cmds@.len() == 1 && (r.cmds@[0]
                    matches ResourceCmd::FetchCollection { connector, query } && connector == c
                    && query@ == self.query@),
                None => r.cmds@ == Seq::<ResourceCmd<T>>::empty(),
            },
    {
        match &self.connector {
            Some(connector) => {
                let cmd = ResourceCmd::FetchCollection {
                    connector: connector.clone(),
                    query: self.query.clone(),
                };
                ComponentReturn::cmd(cmd)
            },
            None => ComponentReturn::empty(),
        }
    }

    /// The deferred detail fetch for one selected row, if a connector is
    /// bound.
    fn single_fetch(&self, selected: T) -> (r: ResourcesReturn<T, R>)
        ensures
            r.msgs@ == Seq::<ResourcesMsg<T, R>>::empty(),
            r.actions@ == Seq::<Action>::empty(),
            match self.connector {
                Some(c) => r.cmds@.len() == 1 && (r.cmds@[0] matches ResourceCmd::FetchDetail {
                    connector,
                    row,
                } && connector == c && row == selected),
                None => r.cmds@ == Seq::<ResourceCmd<T>>::empty(),
            },
    {
        match &self.connector {
            Some(connector) => {
                let cmd = ResourceCmd::FetchDetail { connector: connector.clone(), row: selected };
                ComponentReturn::cmd(cmd)
            },
            None => ComponentReturn::empty(),
        }
    }

    /// Binds the connector and issues the initial fetch with the active
    /// query.  Calling it again is harmless: it re-binds and re-fetches,
    /// and in particular leaves previously fetched rows on display.
    pub fn init(&mut self, props: Connector) -> (r: ResourcesReturn<T, R>)
        requires
            old(self).wf(),
        ensures
            final(self).wf(),
            final(self).connector == Some(props),
            final(self).table == old(self).table,
            final(self).resource == old(self).resource,
            final(self).filter == old(self).filter,
            final(self).query == old(self).query,
            final(self).focus == old(self).focus,
            final(self).show_filters == old(self).show_filters,
            r.msgs@ == Seq::<ResourcesMsg<T, R>>::empty(),
            r.actions@ == Seq::<Action>::empty(),
            r.cmds@.len() == 1 && (r.cmds@[0] matches ResourceCmd::FetchCollection {
                connector,
                query,
            } && connector == props && query@ == final(self).query@),
    {
        self.connector = Some(props);
        self.fetch()
    }
}

impl<T: Clone, R> ResourcesComponent<T, R> {
    /// Processes one browser message.
    #[verifier::rlimit(100)]
    #[verifier::spinoff_prover]
    pub fn update(&mut self, msg: ResourcesMsg<T, R>) -> (r: ResourcesReturn<T, R>)
        requires
            old(self).wf(),
            msg_ok(msg),
        ensures
            final(self).wf(),
            browser_step(*old(self), *final(self), msg, r.msgs@, r.actions@, r.cmds@),
    {
        match msg {
            ResourcesMsg::ResourceFetched(resource) => {
                self.resource.update_resource(Some(resource));
                self.focus = Focus::Resource;
                ComponentReturn::action(Action::ChangeSheet)
            },
            ResourcesMsg::ResourceSelected(selected) => self.single_fetch(selected),
            ResourcesMsg::TableMsg(tm) => {
                self.table.update(tm);
                ComponentReturn::empty()
            },
            ResourcesMsg::FilterMsg(fm) => {
                let ghost gfm = fm;
                let fr = self.filter.update(fm);
                let mut fmsgs = fr.msgs;
                let ghost orig = fmsgs@;
                let mut msgs: Vec<ResourcesMsg<T, R>> = Vec::new();
                let cmds: Vec<ResourceCmd<T>> = Vec::new();
                proof {
                    assert(msgs@ =~= Seq::<ResourcesMsg<T, R>>::empty());
                    assert(cmds@ =~= Seq::<ResourceCmd<T>>::empty());
                    assert(fmsgs@ =~= orig.subrange(0, orig.len() as int));
                }
                #[verifier::loop_isolation(false)]
                while fmsgs.len() > 0
                    invariant
                        msgs@.len() + fmsgs@.len() == orig.len(),
                        fmsgs@ == orig.subrange(msgs@.len() as int, orig.len() as int),
                        forall|k: int|
                            0 <= k < msgs@.len() ==> #[trigger] msgs@[k] == (match orig[k] {
                                FilterMsg::Outer(q) => ResourcesMsg::<T, R>::ChangeQuery(q),
                                FilterMsg::Local(l) => ResourcesMsg::<T, R>::FilterMsg(
                                    FilterMsg::Local(l),
                                ),
                            }),
                    decreases fmsgs@.len(),
                {
                    let ghost done = msgs@.len() as int;
                    let m = fmsgs.remove(0);
                    proof {
                        assert(m == orig[done]);
                        assert(fmsgs@ =~= orig.subrange(done + 1, orig.len() as int));
                    }
                    let mapped_m = match m {
                        FilterMsg::Outer(q) => ResourcesMsg::ChangeQuery(q),
                        FilterMsg::Local(l) => ResourcesMsg::FilterMsg(FilterMsg::Local(l)),
                    };
                    msgs.push(mapped_m);
                }
                proof {
                    assert(self.table == old(self).table);
                    assert(self.query == old(self).query);
                    assert(cmds@ == Seq::<ResourceCmd<T>>::empty());
                    if gfm matches FilterMsg::Local(FilterLocalMsg::Form(
                        FormMsg::Local(FormLocalMsg::Submit),
                    )) {
                        if parse_ok(old(self).filter.form.fields@) {
                            assert(self.filter.error is None);
                            assert(msgs@.len() == 1);
                            assert(msgs@[0] matches ResourcesMsg::ChangeQuery(q) && parse_result(
                                old(self).filter.form.fields@,
                                Ok(q),
                            ));
                        } else {
                            assert(msgs@ == Seq::<ResourcesMsg<T, R>>::empty());
                            assert(self.filter.error matches Some(e) && parse_result(
                                old(self).filter.form.fields@,
                                Err(e),
                            ));
                        }
                    }
                }
                ComponentReturn { msgs, actions: fr.actions, cmds }
            },
            ResourcesMsg::ResourcesFetched(resources) => {
                self.table.update_elements(resources);
                ComponentReturn::empty()
            },
            ResourcesMsg::ShowFilters => {
                self.show_filters = true;
                let res = self.filter.set_query(self.query.clone());
                proof {
                    assert(res is Ok);
                }
                ComponentReturn::empty()
            },
            ResourcesMsg::HideFilters => {
                self.show_filters = false;
                ComponentReturn::empty()
            },
            ResourcesMsg::Back => {
                self.focus = Focus::ResourceList;
                ComponentReturn::action(Action::ChangeSheet)
            },
            ResourcesMsg::NextPage => {
                if self.table.elements.len() == self.query.limit() as usize {
                    if self.query.offset() <= u32::MAX - self.query.limit() {
                        let new_offset = self.query.offset() + self.query.limit();
                        let q = self.query.to_builder().offset(new_offset).build();
                        proof {
                            vstd::arithmetic::div_mod::lemma_mod_multiples_vanish(
                                1,
                                old(self).query.offset as int,
                                old(self).query.limit as int,
                            );
                        }
                        self.query = q;
                        self.fetch()
                    } else {
                        ComponentReturn::empty()
                    }
                } else {
                    ComponentReturn::empty()
                }
            },
            ResourcesMsg::PrevPage => {
                if self.query.offset() > 0 {
                    proof {
                        if old(self).query.offset < old(self).query.limit {
                            vstd::arithmetic::div_mod::lemma_small_mod(
                                old(self).query.offset as nat,
                                old(self).query.limit as nat,
                            );
                        }
                        vstd::arithmetic::div_mod::lemma_mod_multiples_vanish(
                            -1,
                            old(self).query.offset as int,
                            old(self).query.limit as int,
                        );
                    }
                    let new_offset = self.query.offset() - self.query.limit();
                    let q = self.query.to_builder().offset(new_offset).build();
                    self.query = q;
                    self.fetch()
                } else {
                    ComponentReturn::empty()
                }
            },
            ResourcesMsg::RefreshPage => self.fetch(),
            ResourcesMsg::ChangeQuery(query) => {
                self.show_filters = false;
                self.query = query;
                self.fetch()
            },
            ResourcesMsg::ResourcesFetchFailed(error) => ComponentReturn::action(
                Action::Notification(Notification::error(error)),
            ),
        }
    }
}

/// Two Refresh steps with nothing in between issue fetches with identical
/// query contents, and the browser is exactly where it started.
pub proof fn lemma_refresh_idempotent<T, R>(
    s0: ResourcesComponent<T, R>,
    s1: ResourcesComponent<T, R>,
    s2: ResourcesComponent<T, R>,
    c1: Seq<ResourceCmd<T>>,
    c2: Seq<ResourceCmd<T>>,
)
    requires
        refresh_step(s0, s1, c1),
        refresh_step(s1, s2, c2),
    ensures
        s2 == s0,
        c1.len() == c2.len(),
        s0.connector is Some ==> (c1[0] matches ResourceCmd::FetchCollection {
            connector: x1,
            query: q1,
        } && c2[0] matches ResourceCmd::FetchCollection { connector: x2, query: q2 } && x1 == x2
            && q1@ == q2@ && q1@ == s0.query@),
{
}

/// The offset after a Next-page step is the old offset plus the page size,
/// and a fetch is issued only when the last page was exactly one page full.
pub proof fn lemma_next_page_offset<T, R>(
    pre: ResourcesComponent<T, R>,
    post: ResourcesComponent<T, R>,
    issued: Seq<ResourceCmd<T>>,
)
    requires
        next_page_step(pre, post, issued),
    ensures
        issued.len() > 0 ==> post.query.offset == pre.query.offset + pre.query.limit
            && pre.table.elements@.len() == pre.query.limit,
        pre.table.elements@.len() != pre.query.limit ==> issued.len() == 0 && post == pre,
{
}

/// The offset after a Previous-page step is the old offset minus the page
/// size (never below zero, since the offset is always a whole number of
/// pages), and a fetch is issued only past the first page.
pub proof fn lemma_prev_page_offset<T, R>(
    pre: ResourcesComponent<T, R>,
    post: ResourcesComponent<T, R>,
    issued: Seq<ResourceCmd<T>>,
)
    requires
        pre.wf(),
        prev_page_step(pre, post, issued),
    ensures
        issued.len() > 0 ==> post.query.offset + pre.query.limit == pre.query.offset,
        pre.query.offset == 0 ==> issued.len() == 0 && post == pre,
{
    if pre.query.offset > 0 {
        if pre.query.offset < pre.query.limit {
            vstd::arithmetic::div_mod::lemma_small_mod(
                pre.query.offset as nat,
                pre.query.limit as nat,
            );
        }
    }
}

/// The messages a key press produces in the browser, by focused view and
/// editor visibility.
pub open spec fn browser_key_msgs<T: Clone, R>(
    b: ResourcesComponent<T, R>,
    key: KeyEvent,
    msgs: Seq<ResourcesMsg<T, R>>,
) -> bool {
    match b.focus {
        Focus::ResourceList => {
            if !b.show_filters && key.code == KeyCode::Char('n') {
                msgs == seq![ResourcesMsg::<T, R>::NextPage]
            } else if !b.show_filters && key.code == KeyCode::Char('p') {
                msgs == seq![ResourcesMsg::<T, R>::PrevPage]
            } else if !b.show_filters && key.code == KeyCode::Char('r') {
                msgs == seq![ResourcesMsg::<T, R>::RefreshPage]
            } else if !b.show_filters && key.code == KeyCode::Char('f') {
                msgs == seq![ResourcesMsg::<T, R>::ShowFilters]
            } else if b.show_filters && key.code == KeyCode::Esc {
                msgs == seq![ResourcesMsg::<T, R>::HideFilters]
            } else if b.show_filters {
                msgs == crate::widgets::form::form_key_msgs(b.filter.form, key).map_values(
                    |m: FormMsg| ResourcesMsg::<T, R>::FilterMsg(
                        FilterMsg::Local(FilterLocalMsg::Form(m)),
                    ),
                )
            } else {
                match key.code {
                    KeyCode::Enter => {
                        if b.table.select_enabled && b.table.selected is Some {
                            msgs.len() == 1 && (msgs[0] matches ResourcesMsg::ResourceSelected(row)
                                && cloned::<T>(
                                b.table.elements@[b.table.selected->0 as int],
                                row,
                            ))
                        } else {
                            msgs == Seq::<ResourcesMsg<T, R>>::empty()
                        }
                    },
                    KeyCode::Char('j') | KeyCode::Down => msgs == seq![
                        ResourcesMsg::<T, R>::TableMsg(TableMsg::Local(TableLocalMsg::MoveDown)),
                    ],
                    KeyCode::Char('k') | KeyCode::Up => msgs == seq![
                        ResourcesMsg::<T, R>::TableMsg(TableMsg::Local(TableLocalMsg::MoveUp)),
                    ],
                    _ => msgs == Seq::<ResourcesMsg<T, R>>::empty(),
                }
            }
        },
        Focus::Resource => {
            if key.code == KeyCode::Esc {
                msgs == seq![ResourcesMsg::<T, R>::Back]
            } else {
                msgs == Seq::<ResourcesMsg<T, R>>::empty()
            }
        },
    }
}

impl<T: Clone, R> ResourcesComponent<T, R> {
    /// Routes a raw key press: pagination and filter toggles in the list
    /// view, Escape closes the editor or the detail view, and everything
    /// else reaches the editor or the table, whichever is on top.
    pub fn handle_event(&self, evt: ComponentEvent) -> (msgs: Vec<ResourcesMsg<T, R>>)
        requires
            self.wf(),
        ensures
            match evt {
                ComponentEvent::Key(key) => browser_key_msgs(*self, key, msgs@),
            },
    {
        let ComponentEvent::Key(key) = evt;
        let mut msgs: Vec<ResourcesMsg<T, R>> = Vec::new();
        proof {
            assert(msgs@ =~= Seq::<ResourcesMsg<T, R>>::empty());
        }
        match self.focus {
            Focus::ResourceList => {
                let shortcut: Option<ResourcesMsg<T, R>> = if !self.show_filters {
                    match key.code {
                        KeyCode::Char(c) => {
                            if c == 'n' {
                                Some(ResourcesMsg::NextPage)
                            } else if c == 'p' {
                                Some(ResourcesMsg::PrevPage)
                            } else if c == 'r' {
                                Some(ResourcesMsg::RefreshPage)
                            } else if c == 'f' {
                                Some(ResourcesMsg::ShowFilters)
                            } else {
                                None
                            }
                        },
                        _ => None,
                    }
                } else {
                    match key.code {
                        KeyCode::Esc => Some(ResourcesMsg::HideFilters),
                        _ => None,
                    }
                };
                match shortcut {
                    Some(m) => {
                        msgs.push(m);
                        proof {
                            assert(msgs@ =~= seq![msgs@[0]]);
                        }
                    },
                    None => {
                        if self.show_filters {
                            let fmsgs = self.filter.handle_event(evt);
                            let mut i: usize = 0;
                            #[verifier::loop_isolation(false)]
                            while i < fmsgs.len()
                                invariant
                                    i <= fmsgs@.len(),
                                    msgs@.len() == i,
                                    forall|k: int|
                                        0 <= k < i ==> #[trigger] msgs@[k] == (match fmsgs@[k] {
                                            FilterMsg::Outer(q) => ResourcesMsg::<T, R>::ChangeQuery(
                                                q,
                                            ),
                                            FilterMsg::Local(l) => ResourcesMsg::<T, R>::FilterMsg(
                                                FilterMsg::Local(l),
                                            ),
                                        }),
                                decreases fmsgs@.len() - i,
                            {
                                let m: ResourcesMsg<T, R> = match &fmsgs[i] {
                                    FilterMsg::Local(FilterLocalMsg::Form(fm)) => ResourcesMsg::FilterMsg(
                                        FilterMsg::Local(FilterLocalMsg::Form(*fm)),
                                    ),
                                    _ => {
                                        proof {
                                            assert(false);
                                        }
                                        ResourcesMsg::HideFilters
                                    },
                                };
                                msgs.push(m);
                                i = i + 1;
                            }
                            proof {
                                let mapper = |m: FormMsg| ResourcesMsg::<T, R>::FilterMsg(
                                    FilterMsg::Local(FilterLocalMsg::Form(m)),
                                );
                                assert(msgs@ =~= crate::widgets::form::form_key_msgs(
                                    self.filter.form,
                                    key,
                                ).map_values(mapper));
                            }
                        } else {
                            let mut tmsgs = self.table.handle_key(key);
                            let ghost orig = tmsgs@;
                            #[verifier::loop_isolation(false)]
                            while tmsgs.len() > 0
                                invariant
                                    msgs@.len() + tmsgs@.len() == orig.len(),
                                    tmsgs@ == orig.subrange(
                                        msgs@.len() as int,
                                        orig.len() as int,
                                    ),
                                    forall|k: int|
                                        0 <= k < msgs@.len() ==> #[trigger] msgs@[k] == (
                                        match orig[k] {
                                            TableMsg::Outer(row) => ResourcesMsg::<
                                                T,
                                                R,
                                            >::ResourceSelected(row),
                                            TableMsg::Local(l) => ResourcesMsg::<T, R>::TableMsg(
                                                TableMsg::Local(l),
                                            ),
                                        }),
                                decreases tmsgs@.len(),
                            {
                                let ghost done = msgs@.len() as int;
                                let m = tmsgs.remove(0);
                                proof {
                                    assert(m == orig[done]);
                                    assert(tmsgs@ =~= orig.subrange(done + 1, orig.len() as int));
                                }
                                let mapped_m: ResourcesMsg<T, R> = match m {
                                    TableMsg::Local(l) => ResourcesMsg::TableMsg(
                                        TableMsg::Local(l),
                                    ),
                                    TableMsg::Outer(row) => ResourcesMsg::ResourceSelected(row),
                                };
                                msgs.push(mapped_m);
                            }
                            proof {
                                if msgs@.len() == 0 {
                                    assert(msgs@ =~= Seq::<ResourcesMsg<T, R>>::empty());
                                }
                                if msgs@.len() == 1 {
                                    assert(msgs@ =~= seq![msgs@[0]]);
                                }
                            }
                        }
                    },
                }
            },
            Focus::Resource => {
                match key.code {
                    KeyCode::Esc => {
                        msgs.push(ResourcesMsg::Back);
                        proof {
                            assert(msgs@ =~= seq![ResourcesMsg::<T, R>::Back]);
                        }
                    },
                    _ => {},
                }
            },
        }
        msgs
    }
}

impl<T, R: DrawableResource> Default for ResourcesComponent<T, R> {
    fn default() -> (c: ResourcesComponent<T, R>)
        ensures
            c.wf(),
            c.focus == Focus::ResourceList,
            !c.show_filters,
            c.connector is None,
            c.table.elements@ == Seq::<T>::empty(),
            c.table.selected is None,
            c.table.select_enabled,
            c.query.is_default(),
            c.resource.resource is None,
            c.filter.error is None,
    {
        let query = Query::default();
        let filter_query = Query::default();
        ResourcesComponent {
            table: UiTable::new(R::title().to_owned()).on_select(),
            resource: ResourceComponent::new(R::title().to_owned()),
            filter: Filter::new(filter_query),
            query,
            focus: Focus::ResourceList,
            show_filters: false,
            connector: None,
        }
    }
}

} // verus!
