//! The top-level state machine: it owns every component, tracks which one
//! receives raw input, routes navigation, recomputes the help sheet, and
//! shows timed notifications.  A child's bubbled actions become top-level
//! messages; deferred work surfaces as command values for the host.

use vstd::prelude::*;

use crate::components::agreements::{ContractAgreementEntry, ContractAgreementsComponent};
use crate::components::connectors::{ConnectorsComponent, ConnectorsMsg};
use crate::components::dataplanes::{DataPlaneEntry, DataPlanesComponent};
use crate::components::edrs::{EdrEntry, EdrMetadataEntry, EdrsComponent};
use crate::components::entries::{
    AssetEntry, AssetsComponent, ContractDefinitionEntry, ContractDefinitionsComponent,
    ContractNegotiationEntry, ContractNegotiationsComponent, PolicyDefinitionEntry,
    PolicyDefinitionsComponent, TransferProcessEntry, TransferProcessesComponent,
};
use crate::components::footer::Footer;
use crate::components::header::HeaderComponent;
use crate::components::launch_bar::{LaunchBar, LaunchBarMsg, LaunchCmd};
use crate::components::resources::{msg_ok, ResourceCmd};
use crate::components::{Action, ComponentReturn, NotificationMsg};
use crate::input::{ComponentEvent, KeyCode, KeyEvent};
use crate::types::connector::Connector;
use crate::types::info::{sheet_views, InfoSheet};
use crate::types::nav::{Menu, Nav};
use crate::types::notification::Notification;

pub mod model;
pub mod msg;

use self::model::{menu_focus, AppFocus};
use self::msg::AppMsg;

verus! {

broadcast use vstd::std_specs::vec::axiom_spec_len;

/// A deferred unit of work of the interface: one browser's fetch, or the
/// expiry timer of a notification.
#[derive(Debug)]
pub enum AppCmd {
    Assets(ResourceCmd<AssetEntry>),
    Policies(ResourceCmd<PolicyDefinitionEntry>),
    ContractDefinitions(ResourceCmd<ContractDefinitionEntry>),
    ContractNegotiations(ResourceCmd<ContractNegotiationEntry>),
    ContractAgreements(ResourceCmd<ContractAgreementEntry>),
    TransferProcesses(ResourceCmd<TransferProcessEntry>),
    Edrs(ResourceCmd<EdrMetadataEntry>),
    DataPlanes(ResourceCmd<DataPlaneEntry>),
    ClearNotification { timeout: u64 },
}

/// What the top level's update step returns.
pub type AppReturn = ComponentReturn<AppMsg, AppCmd>;

/// The interface: every top-level component, the focus, and the quit flag
/// the host's loop watches.
pub struct App {
    pub connectors: ConnectorsComponent,
    pub policies: PolicyDefinitionsComponent,
    pub assets: AssetsComponent,
    pub contract_definitions: ContractDefinitionsComponent,
    pub contract_negotiations: ContractNegotiationsComponent,
    pub contract_agreements: ContractAgreementsComponent,
    pub transfer_processes: TransferProcessesComponent,
    pub edrs: EdrsComponent,
    pub dataplanes: DataPlanesComponent,
    pub launch_bar: LaunchBar,
    pub launch_bar_visible: bool,
    pub focus: AppFocus,
    pub header: HeaderComponent,
    pub footer: Footer,
    pub should_quit: bool,
}

/// Which component a top-level message is addressed to, if it is a
/// component message at all.  A message carrying a child's message reaches
/// exactly the focus that owns that child.
pub open spec fn msg_focus(m: AppMsg) -> Option<AppFocus> {
    match m {
        AppMsg::ConnectorsMsg(_) => Some(AppFocus::ConnectorList),
        AppMsg::LaunchBarMsg(_) => Some(AppFocus::LaunchBar),
        AppMsg::AssetsMsg(_) => Some(AppFocus::Assets),
        AppMsg::PoliciesMsg(_) => Some(AppFocus::Policies),
        AppMsg::ContractDefinitions(_) => Some(AppFocus::ContractDefinitions),
        AppMsg::ContractNegotiations(_) => Some(AppFocus::ContractNegotiations),
        AppMsg::ContractAgreements(_) => Some(AppFocus::ContractAgreements),
        AppMsg::TransferProcesses(_) => Some(AppFocus::TransferProcesses),
        AppMsg::Edrs(_) => Some(AppFocus::Edrs),
        AppMsg::DataPlanes(_) => Some(AppFocus::DataPlanes),
        _ => None,
    }
}

/// No browser's fetched rows, opened detail or active query changed: what
/// navigation guarantees until a fetch of its own completes.
pub open spec fn browsers_content_unchanged(pre: App, post: App) -> bool {
    &&& post.connectors.table == pre.connectors.table
    &&& post.connectors.selected == pre.connectors.selected
    &&& post.assets.table == pre.assets.table && post.assets.resource == pre.assets.resource
        && post.assets.query == pre.assets.query
    &&& post.policies.table == pre.policies.table && post.policies.resource
        == pre.policies.resource && post.policies.query == pre.policies.query
    &&& post.contract_definitions.table == pre.contract_definitions.table
        && post.contract_definitions.resource == pre.contract_definitions.resource
        && post.contract_definitions.query == pre.contract_definitions.query
    &&& post.contract_negotiations.table == pre.contract_negotiations.table
        && post.contract_negotiations.resource == pre.contract_negotiations.resource
        && post.contract_negotiations.query == pre.contract_negotiations.query
    &&& post.contract_agreements.table == pre.contract_agreements.table
        && post.contract_agreements.resource == pre.contract_agreements.resource
        && post.contract_agreements.query == pre.contract_agreements.query
    &&& post.transfer_processes.table == pre.transfer_processes.table
        && post.transfer_processes.resource == pre.transfer_processes.resource
        && post.transfer_processes.query == pre.transfer_processes.query
    &&& post.edrs.table == pre.edrs.table && post.edrs.resource == pre.edrs.resource
        && post.edrs.query == pre.edrs.query
    &&& post.dataplanes.table == pre.dataplanes.table && post.dataplanes.resource
        == pre.dataplanes.resource && post.dataplanes.query == pre.dataplanes.query
}

/// The global key bindings the interface itself advertises.
pub open spec fn global_bindings() -> Seq<(Seq<char>, Seq<char>)> {
    seq![
        ("<tab>"@, "Next menu"@),
        ("<tab+shift>"@, "Prev menu"@),
        ("<esc>"@, "Back/Clear"@),
        ("<:>"@, "Launch bar"@),
        ("<:q>"@, "Quit"@),
    ]
}

/// The context-sensitive bindings of the selected menu entry's component:
/// nothing extra for the connector list, the active browser's bindings
/// otherwise.
pub open spec fn menu_bindings(app: App) -> Seq<(Seq<char>, Seq<char>)> {
    match app.header.menu {
        Menu::Connectors => Seq::<(Seq<char>, Seq<char>)>::empty(),
        Menu::Assets => crate::components::resources::browser_bindings(app.assets),
        Menu::Policies => crate::components::resources::browser_bindings(app.policies),
        Menu::ContractDefinitions => crate::components::resources::browser_bindings(
            app.contract_definitions,
        ),
        Menu::ContractNegotiations => crate::components::resources::browser_bindings(
            app.contract_negotiations,
        ),
        Menu::ContractAgreements => crate::components::resources::browser_bindings(
            app.contract_agreements,
        ),
        Menu::TransferProcesses => crate::components::resources::browser_bindings(
            app.transfer_processes,
        ),
        Menu::Edrs => crate::components::resources::browser_bindings(app.edrs),
        Menu::DataPlanes => crate::components::resources::browser_bindings(app.dataplanes),
    }
}

/// The sheet the header shows after a recompute: the connector list's
/// bindings, the global bindings, then the selected entry's own.
pub open spec fn merged_sheet(app: App) -> Seq<(Seq<char>, Seq<char>)> {
    crate::components::connectors::connectors_bindings() + global_bindings() + menu_bindings(app)
}

/// The initial fetch navigation issues for a menu entry's browser, bound to
/// the selected connector.
pub open spec fn routing_cmds(menu: Menu, c: Connector, post: App, cmds: Seq<AppCmd>) -> bool {
    match menu {
        Menu::Connectors => cmds.len() == 0,
        Menu::Assets => cmds.len() == 1 && (cmds[0] matches AppCmd::Assets(
            ResourceCmd::FetchCollection { connector, query },
        ) && connector == c && query@ == post.assets.query@),
        Menu::Policies => cmds.len() == 1 && (cmds[0] matches AppCmd::Policies(
            ResourceCmd::FetchCollection { connector, query },
        ) && connector == c && query@ == post.policies.query@),
        Menu::ContractDefinitions => cmds.len() == 1 && (cmds[0]
            matches AppCmd::ContractDefinitions(ResourceCmd::FetchCollection { connector, query })
            && connector == c && query@ == post.contract_definitions.query@),
        Menu::ContractNegotiations => cmds.len() == 1 && (cmds[0]
            matches AppCmd::ContractNegotiations(ResourceCmd::FetchCollection { connector, query })
            && connector == c && query@ == post.contract_negotiations.query@),
        Menu::ContractAgreements => cmds.len() == 1 && (cmds[0]
            matches AppCmd::ContractAgreements(ResourceCmd::FetchCollection { connector, query })
            && connector == c && query@ == post.contract_agreements.query@),
        Menu::TransferProcesses => cmds.len() == 1 && (cmds[0] matches AppCmd::TransferProcesses(
            ResourceCmd::FetchCollection { connector, query },
        ) && connector == c && query@ == post.transfer_processes.query@),
        Menu::Edrs => cmds.len() == 1 && (cmds[0] matches AppCmd::Edrs(
            ResourceCmd::FetchCollection { connector, query },
        ) && connector == c && query@ == post.edrs.query@),
        Menu::DataPlanes => cmds.len() == 1 && (cmds[0] matches AppCmd::DataPlanes(
            ResourceCmd::FetchCollection { connector, query },
        ) && connector == c && query@ == post.dataplanes.query@),
    }
}


/// The wrapped image of a connector-list message sequence.
pub open spec fn wraps_connectors(out: Seq<AppMsg>, inner: Seq<ConnectorsMsg>) -> bool {
    out.len() == inner.len() && forall|k: int|
        0 <= k < inner.len() ==> out[k] == AppMsg::ConnectorsMsg(#[trigger] inner[k])
}

/// The wrapped image of a command-bar message sequence.
pub open spec fn wraps_launch_bar(out: Seq<AppMsg>, inner: Seq<LaunchBarMsg>) -> bool {
    out.len() == inner.len() && forall|k: int|
        0 <= k < inner.len() ==> out[k] == AppMsg::LaunchBarMsg(#[trigger] inner[k])
}

/// The wrapped image of a header message sequence.
pub open spec fn wraps_header(out: Seq<AppMsg>, inner: Seq<crate::components::header::HeaderMsg>) -> bool {
    out.len() == inner.len() && forall|k: int|
        0 <= k < inner.len() ==> out[k] == AppMsg::HeaderMsg(#[trigger] inner[k])
}

/// The wrapped image of one browser's message sequence.
pub open spec fn wraps_assets(
    out: Seq<AppMsg>,
    inner: Seq<crate::components::resources::msg::ResourcesMsg<AssetEntry, AssetEntry>>,
) -> bool {
    out.len() == inner.len() && forall|k: int|
        0 <= k < inner.len() ==> out[k] == AppMsg::AssetsMsg(#[trigger] inner[k])
}

/// The wrapped image of one browser's message sequence.
pub open spec fn wraps_policies(
    out: Seq<AppMsg>,
    inner: Seq<crate::components::resources::msg::ResourcesMsg<PolicyDefinitionEntry, PolicyDefinitionEntry>>,
) -> bool {
    out.len() == inner.len() && forall|k: int|
        0 <= k < inner.len() ==> out[k] == AppMsg::PoliciesMsg(#[trigger] inner[k])
}

/// The wrapped image of one browser's message sequence.
pub open spec fn wraps_contract_definitions(
    out: Seq<AppMsg>,
    inner: Seq<crate::components::resources::msg::ResourcesMsg<ContractDefinitionEntry, ContractDefinitionEntry>>,
) -> bool {
    out.len() == inner.len() && forall|k: int|
        0 <= k < inner.len() ==> out[k] == AppMsg::ContractDefinitions(#[trigger] inner[k])
}

/// The wrapped image of one browser's message sequence.
pub open spec fn wraps_contract_negotiations(
    out: Seq<AppMsg>,
    inner: Seq<crate::components::resources::msg::ResourcesMsg<ContractNegotiationEntry, ContractNegotiationEntry>>,
) -> bool {
    out.len() == inner.len() && forall|k: int|
        0 <= k < inner.len() ==> out[k] == AppMsg::ContractNegotiations(#[trigger] inner[k])
}

/// The wrapped image of one browser's message sequence.
pub open spec fn wraps_contract_agreements(
    out: Seq<AppMsg>,
    inner: Seq<crate::components::resources::msg::ResourcesMsg<ContractAgreementEntry, ContractAgreementEntry>>,
) -> bool {
    out.len() == inner.len() && forall|k: int|
        0 <= k < inner.len() ==> out[k] == AppMsg::ContractAgreements(#[trigger] inner[k])
}

/// The wrapped image of one browser's message sequence.
pub open spec fn wraps_transfer_processes(
    out: Seq<AppMsg>,
    inner: Seq<crate::components::resources::msg::ResourcesMsg<TransferProcessEntry, TransferProcessEntry>>,
) -> bool {
    out.len() == inner.len() && forall|k: int|
        0 <= k < inner.len() ==> out[k] == AppMsg::TransferProcesses(#[trigger] inner[k])
}

/// The wrapped image of one browser's message sequence.
pub open spec fn wraps_edrs(
    out: Seq<AppMsg>,
    inner: Seq<crate::components::resources::msg::ResourcesMsg<EdrMetadataEntry, EdrEntry>>,
) -> bool {
    out.len() == inner.len() && forall|k: int|
        0 <= k < inner.len() ==> out[k] == AppMsg::Edrs(#[trigger] inner[k])
}

/// The wrapped image of one browser's message sequence.
pub open spec fn wraps_dataplanes(
    out: Seq<AppMsg>,
    inner: Seq<crate::components::resources::msg::ResourcesMsg<DataPlaneEntry, DataPlaneEntry>>,
) -> bool {
    out.len() == inner.len() && forall|k: int|
        0 <= k < inner.len() ==> out[k] == AppMsg::DataPlanes(#[trigger] inner[k])
}

/// What a key press yields once the focused component made nothing of it:
/// the always-active header's messages, and past those only the command-bar
/// character means anything.
pub open spec fn fallthrough_msgs(key: KeyEvent, msgs: Seq<AppMsg>) -> bool {
    let hdr = crate::components::header::header_key_msgs(key);
    if hdr.len() > 0 {
        wraps_header(msgs, hdr)
    } else if key.code == KeyCode::Char(':') {
        msgs == seq![AppMsg::ShowLaunchBar]
    } else {
        msgs == Seq::<AppMsg>::empty()
    }
}

/// How a key press is dispatched: the focused component's messages come
/// back wrapped and unchanged; only when there are none does the press fall
/// through to the header and then to the global command-bar key.
pub open spec fn app_key_dispatch(app: App, key: KeyEvent, msgs: Seq<AppMsg>) -> bool {
    match app.focus {
        AppFocus::ConnectorList => exists|inner: Seq<ConnectorsMsg>|
            #[trigger] crate::components::connectors::connectors_key_msgs(
                app.connectors,
                key,
                inner,
            ) && (if inner.len() > 0 {
                wraps_connectors(msgs, inner)
            } else {
                fallthrough_msgs(key, msgs)
            }),
        AppFocus::LaunchBar => {
            let inner = crate::components::launch_bar::launch_bar_key_msgs(key);
            if inner.len() > 0 {
                wraps_launch_bar(msgs, inner)
            } else {
                fallthrough_msgs(key, msgs)
            }
        },
        AppFocus::Assets => exists|inner: Seq<
            crate::components::resources::msg::ResourcesMsg<AssetEntry, AssetEntry>,
        >|
            #[trigger] crate::components::resources::browser_key_msgs(
                app.assets,
                key,
                inner,
            ) && (if inner.len() > 0 {
                wraps_assets(msgs, inner)
            } else {
                fallthrough_msgs(key, msgs)
            }),
        AppFocus::Policies => exists|inner: Seq<
            crate::components::resources::msg::ResourcesMsg<PolicyDefinitionEntry, PolicyDefinitionEntry>,
        >|
            #[trigger] crate::components::resources::browser_key_msgs(
                app.policies,
                key,
                inner,
            ) && (if inner.len() > 0 {
                wraps_policies(msgs, inner)
            } else {
                fallthrough_msgs(key, msgs)
            }),
        AppFocus::ContractDefinitions => exists|inner: Seq<
            crate::components::resources::msg::ResourcesMsg<ContractDefinitionEntry, ContractDefinitionEntry>,
        >|
            #[trigger] crate::components::resources::browser_key_msgs(
                app.contract_definitions,
                key,
                inner,
            ) && (if inner.len() > 0 {
                wraps_contract_definitions(msgs, inner)
            } else {
                fallthrough_msgs(key, msgs)
            }),
        AppFocus::ContractNegotiations => exists|inner: Seq<
            crate::components::resources::msg::ResourcesMsg<ContractNegotiationEntry, ContractNegotiationEntry>,
        >|
            #[trigger] crate::components::resources::browser_key_msgs(
                app.contract_negotiations,
                key,
                inner,
            ) && (if inner.len() > 0 {
                wraps_contract_negotiations(msgs, inner)
            } else {
                fallthrough_msgs(key, msgs)
            }),
        AppFocus::ContractAgreements => exists|inner: Seq<
            crate::components::resources::msg::ResourcesMsg<ContractAgreementEntry, ContractAgreementEntry>,
        >|
            #[trigger] crate::components::resources::browser_key_msgs(
                app.contract_agreements,
                key,
                inner,
            ) && (if inner.len() > 0 {
                wraps_contract_agreements(msgs, inner)
            } else {
                fallthrough_msgs(key, msgs)
            }),
        AppFocus::TransferProcesses => exists|inner: Seq<
            crate::components::resources::msg::ResourcesMsg<TransferProcessEntry, TransferProcessEntry>,
        >|
            #[trigger] crate::components::resources::browser_key_msgs(
                app.transfer_processes,
                key,
                inner,
            ) && (if inner.len() > 0 {
                wraps_transfer_processes(msgs, inner)
            } else {
                fallthrough_msgs(key, msgs)
            }),
        AppFocus::Edrs => exists|inner: Seq<
            crate::components::resources::msg::ResourcesMsg<EdrMetadataEntry, EdrEntry>,
        >|
            #[trigger] crate::components::resources::browser_key_msgs(
                app.edrs,
                key,
                inner,
            ) && (if inner.len() > 0 {
                wraps_edrs(msgs, inner)
            } else {
                fallthrough_msgs(key, msgs)
            }),
        AppFocus::DataPlanes => exists|inner: Seq<
            crate::components::resources::msg::ResourcesMsg<DataPlaneEntry, DataPlaneEntry>,
        >|
            #[trigger] crate::components::resources::browser_key_msgs(
                app.dataplanes,
                key,
                inner,
            ) && (if inner.len() > 0 {
                wraps_dataplanes(msgs, inner)
            } else {
                fallthrough_msgs(key, msgs)
            }),
    }
}

impl App {
    /// The interface's invariant: every owned component keeps its own.
    pub open spec fn wf(&self) -> bool {
        &&& self.connectors.wf()
        &&& self.assets.wf()
        &&& self.policies.wf()
        &&& self.contract_definitions.wf()
        &&& self.contract_negotiations.wf()
        &&& self.contract_agreements.wf()
        &&& self.transfer_processes.wf()
        &&& self.edrs.wf()
        &&& self.dataplanes.wf()
    }

    /// The interface over a given list of connectors: the connector list is
    /// focused, every browser is empty and unbound, nothing is on display
    /// yet.
    pub fn init_with_connectors(connectors: Vec<Connector>) -> (app: App)
        ensures
            app.wf(),
            app.focus == AppFocus::ConnectorList,
            !app.launch_bar_visible,
            !app.should_quit,
            app.header.menu == Menu::Connectors,
            sheet_views(app.header.sheet) == crate::components::connectors::connectors_bindings()
                + global_bindings(),
            app.footer.notification is None,
            app.connectors.table.elements == connectors,
            app.connectors.selected is None,
            app.assets.connector is None && app.assets.table.elements@ == Seq::<
                AssetEntry,
            >::empty(),
            app.policies.connector is None,
            app.contract_definitions.connector is None,
            app.contract_negotiations.connector is None,
            app.contract_agreements.connector is None,
            app.transfer_processes.connector is None,
            app.edrs.connector is None,
            app.dataplanes.connector is None,
    {
        let connectors = ConnectorsComponent::new(connectors);
        let sheet = connectors.info_sheet().merge(Self::info_sheet());
        App {
            connectors,
            policies: PolicyDefinitionsComponent::default(),
            assets: AssetsComponent::default(),
            contract_definitions: ContractDefinitionsComponent::default(),
            contract_negotiations: ContractNegotiationsComponent::default(),
            contract_agreements: ContractAgreementsComponent::default(),
            transfer_processes: TransferProcessesComponent::default(),
            edrs: EdrsComponent::default(),
            dataplanes: DataPlanesComponent::default(),
            launch_bar: LaunchBar::default(),
            launch_bar_visible: false,
            focus: AppFocus::default(),
            footer: Footer::default(),
            header: HeaderComponent::with_sheet(sheet),
            should_quit: false,
        }
    }

    /// The global key bindings: exactly [`global_bindings`].
    pub fn info_sheet() -> (r: InfoSheet)
        ensures
            sheet_views(r) == global_bindings(),
    {
        let r = InfoSheet::default().key_binding("<tab>", "Next menu").key_binding(
            "<tab+shift>",
            "Prev menu",
        ).key_binding("<esc>", "Back/Clear").key_binding("<:>", "Launch bar").key_binding(
            "<:q>",
            "Quit",
        );
        proof {
            assert(sheet_views(r) =~= global_bindings());
        }
        r
    }

    /// Shows a banner and schedules the command that clears it after its
    /// timeout.
    pub fn show_notification(&mut self, noty: Notification) -> (r: AppReturn)
        requires
            old(self).wf(),
        ensures
            final(self).wf(),
            *final(self) == (App { footer: final(self).footer, ..*old(self) }),
            final(self).footer.notification == Some(noty),
            r.msgs@ == Seq::<AppMsg>::empty(),
            r.actions@ == Seq::<Action>::empty(),
            r.cmds@ == seq![AppCmd::ClearNotification { timeout: noty.timeout }],
    {
        let timeout = noty.timeout();
        self.footer.show_notification(noty);
        ComponentReturn::cmd(AppCmd::ClearNotification { timeout })
    }

    /// Clears the banner.
    pub fn clear_notification(&mut self) -> (r: AppReturn)
        requires
            old(self).wf(),
        ensures
            final(self).wf(),
            *final(self) == (App { footer: final(self).footer, ..*old(self) }),
            final(self).footer.notification is None,
            r.is_empty(),
    {
        self.footer.clear_notification();
        ComponentReturn::empty()
    }

    /// Recomputes the help sheet for the selected menu entry: the connector
    /// list's bindings, then the global bindings, then the selected entry's
    /// own, exactly as [`merged_sheet`] states.
    pub fn change_sheet(&mut self) -> (r: AppReturn)
        requires
            old(self).wf(),
        ensures
            final(self).wf(),
            *final(self) == (App { header: final(self).header, ..*old(self) }),
            final(self).header.menu == old(self).header.menu,
            sheet_views(final(self).header.sheet) == merged_sheet(*old(self)),
            r.is_empty(),
    {
        let component_sheet = match self.header.selected_menu() {
            Menu::Connectors => InfoSheet::default(),
            Menu::Assets => self.assets.info_sheet(),
            Menu::Policies => self.policies.info_sheet(),
            Menu::ContractDefinitions => self.contract_definitions.info_sheet(),
            Menu::ContractNegotiations => self.contract_negotiations.info_sheet(),
            Menu::ContractAgreements => self.contract_agreements.info_sheet(),
            Menu::TransferProcesses => self.transfer_processes.info_sheet(),
            Menu::Edrs => self.edrs.info_sheet(),
            Menu::DataPlanes => self.dataplanes.info_sheet(),
        };
        let sheet = self.connectors.info_sheet().merge(Self::info_sheet()).merge(component_sheet);
        self.header.update_sheet(sheet);
        ComponentReturn::empty()
    }

    /// Routes navigation: the command bar closes, the header selects the
    /// entry and the help sheet is recomputed; with a connector selected,
    /// the entry's browser takes the focus and re-binds to it with a fresh
    /// fetch.  Moving to the connector list needs no connector; without a
    /// selected connector every other entry changes only the menu.  Rows,
    /// details and queries fetched earlier stay as they are.
    #[verifier::rlimit(60)]
    pub fn handle_routing(&mut self, nav: Nav) -> (r: AppReturn)
        requires
            old(self).wf(),
        ensures
            final(self).wf(),
            !final(self).launch_bar_visible,
            final(self).launch_bar.input@ == Seq::<char>::empty(),
            final(self).header.menu == nav.spec_to_menu(),
            sheet_views(final(self).header.sheet) == merged_sheet(*final(self)),
            final(self).should_quit == old(self).should_quit,
            final(self).footer == old(self).footer,
            browsers_content_unchanged(*old(self), *final(self)),
            final(self).focus == (match (nav.spec_to_menu(), old(self).connectors.selected) {
                (Menu::Connectors, _) => AppFocus::ConnectorList,
                (m, Some(_)) => menu_focus(m),
                (_, None) => old(self).focus,
            }),
            r.msgs@ == Seq::<AppMsg>::empty(),
            r.actions@ == Seq::<Action>::empty(),
            match (nav.spec_to_menu(), old(self).connectors.selected) {
                (Menu::Connectors, _) => r.cmds@.len() == 0,
                (m, Some(c)) => routing_cmds(m, c, *final(self), r.cmds@),
                (_, None) => r.cmds@.len() == 0,
            },
    {
        self.launch_bar_visible = false;
        self.launch_bar.clear();
        let menu = nav.to_menu();
        self.header.set_selected_menu(menu);
        self.change_sheet();
        let selected = match self.connectors.selected() {
            Some(c) => Some(c.clone()),
            None => None,
        };
        match (menu, selected) {
            (Menu::Connectors, _) => {
                self.focus = AppFocus::ConnectorList;
                ComponentReturn::empty()
            },
            (Menu::Assets, Some(connector)) => {
                self.focus = AppFocus::Assets;
                let br = self.assets.init(connector);
                Self::wrap_assets_cmds(br.cmds)
            },
            (Menu::Policies, Some(connector)) => {
                self.focus = AppFocus::Policies;
                let br = self.policies.init(connector);
                Self::wrap_policies_cmds(br.cmds)
            },
            (Menu::ContractDefinitions, Some(connector)) => {
                self.focus = AppFocus::ContractDefinitions;
                let br = self.contract_definitions.init(connector);
                Self::wrap_contract_definitions_cmds(br.cmds)
            },
            (Menu::ContractNegotiations, Some(connector)) => {
                self.focus = AppFocus::ContractNegotiations;
                let br = self.contract_negotiations.init(connector);
                Self::wrap_contract_negotiations_cmds(br.cmds)
            },
            (Menu::ContractAgreements, Some(connector)) => {
                self.focus = AppFocus::ContractAgreements;
                let br = self.contract_agreements.init(connector);
                Self::wrap_contract_agreements_cmds(br.cmds)
            },
            (Menu::TransferProcesses, Some(connector)) => {
                self.focus = AppFocus::TransferProcesses;
                let br = self.transfer_processes.init(connector);
                Self::wrap_transfer_processes_cmds(br.cmds)
            },
            (Menu::Edrs, Some(connector)) => {
                self.focus = AppFocus::Edrs;
                let br = self.edrs.init(connector);
                Self::wrap_edrs_cmds(br.cmds)
            },
            (Menu::DataPlanes, Some(connector)) => {
                self.focus = AppFocus::DataPlanes;
                let br = self.dataplanes.init(connector);
                Self::wrap_dataplanes_cmds(br.cmds)
            },
            (_, None) => ComponentReturn::empty(),
        }
    }
}

impl App {
    /// Wraps one browser's commands in the top-level command type.
    fn wrap_assets_cmds(cmds: Vec<ResourceCmd<AssetEntry>>) -> (r: AppReturn)
        ensures
            r.msgs@ == Seq::<AppMsg>::empty(),
            r.actions@ == Seq::<Action>::empty(),
            r.cmds@.len() == cmds@.len(),
            forall|k: int|
                0 <= k < cmds@.len() ==> #[trigger] r.cmds@[k] == AppCmd::Assets(cmds@[k]),
    {
        let mut cmds = cmds;
        let ghost orig = cmds@;
        let mut out: Vec<AppCmd> = Vec::new();
        proof {
            assert(out@ =~= Seq::<AppCmd>::empty());
            assert(cmds@ =~= orig.subrange(0, orig.len() as int));
        }
        #[verifier::loop_isolation(false)]
        while cmds.len() > 0
            invariant
                out@.len() + cmds@.len() == orig.len(),
                cmds@ == orig.subrange(out@.len() as int, orig.len() as int),
                forall|k: int| 0 <= k < out@.len() ==> #[trigger] out@[k] == AppCmd::Assets(orig[k]),
            decreases cmds@.len(),
        {
            let ghost done = out@.len() as int;
            let c = cmds.remove(0);
            proof {
                assert(c == orig[done]);
                assert(cmds@ =~= orig.subrange(done + 1, orig.len() as int));
            }
            out.push(AppCmd::Assets(c));
        }
        let r = ComponentReturn { msgs: Vec::new(), actions: Vec::new(), cmds: out };
        proof {
            assert(r.msgs@ =~= Seq::<AppMsg>::empty());
            assert(r.actions@ =~= Seq::<Action>::empty());
        }
        r
    }

    /// Wraps one browser's commands in the top-level command type.
    fn wrap_policies_cmds(cmds: Vec<ResourceCmd<PolicyDefinitionEntry>>) -> (r: AppReturn)
        ensures
            r.msgs@ == Seq::<AppMsg>::empty(),
            r.actions@ == Seq::<Action>::empty(),
            r.cmds@.len() == cmds@.len(),
            forall|k: int|
                0 <= k < cmds@.len() ==> #[trigger] r.cmds@[k] == AppCmd::Policies(cmds@[k]),
    {
        let mut cmds = cmds;
        let ghost orig = cmds@;
        let mut out: Vec<AppCmd> = Vec::new();
        proof {
            assert(out@ =~= Seq::<AppCmd>::empty());
            assert(cmds@ =~= orig.subrange(0, orig.len() as int));
        }
        #[verifier::loop_isolation(false)]
        while cmds.len() > 0
            invariant
                out@.len() + cmds@.len() == orig.len(),
                cmds@ == orig.subrange(out@.len() as int, orig.len() as int),
                forall|k: int| 0 <= k < out@.len() ==> #[trigger] out@[k] == AppCmd::Policies(orig[k]),
            decreases cmds@.len(),
        {
            let ghost done = out@.len() as int;
            let c = cmds.remove(0);
            proof {
                assert(c == orig[done]);
                assert(cmds@ =~= orig.subrange(done + 1, orig.len() as int));
            }
            out.push(AppCmd::Policies(c));
        }
        let r = ComponentReturn { msgs: Vec::new(), actions: Vec::new(), cmds: out };
        proof {
            assert(r.msgs@ =~= Seq::<AppMsg>::empty());
            assert(r.actions@ =~= Seq::<Action>::empty());
        }
        r
    }

    /// Wraps one browser's commands in the top-level command type.
    fn wrap_contract_definitions_cmds(cmds: Vec<ResourceCmd<ContractDefinitionEntry>>) -> (r: AppReturn)
        ensures
            r.msgs@ == Seq::<AppMsg>::empty(),
            r.actions@ == Seq::<Action>::empty(),
            r.cmds@.len() == cmds@.len(),
            forall|k: int|
                0 <= k < cmds@.len() ==> #[trigger] r.cmds@[k] == AppCmd::ContractDefinitions(cmds@[k]),
    {
        let mut cmds = cmds;
        let ghost orig = cmds@;
        let mut out: Vec<AppCmd> = Vec::new();
        proof {
            assert(out@ =~= Seq::<AppCmd>::empty());
            assert(cmds@ =~= orig.subrange(0, orig.len() as int));
        }
        #[verifier::loop_isolation(false)]
        while cmds.len() > 0
            invariant
                out@.len() + cmds@.len() == orig.len(),
                cmds@ == orig.subrange(out@.len() as int, orig.len() as int),
                forall|k: int| 0 <= k < out@.len() ==> #[trigger] out@[k] == AppCmd::ContractDefinitions(orig[k]),
            decreases cmds@.len(),
        {
            let ghost done = out@.len() as int;
            let c = cmds.remove(0);
            proof {
                assert(c == orig[done]);
                assert(cmds@ =~= orig.subrange(done + 1, orig.len() as int));
            }
            out.push(AppCmd::ContractDefinitions(c));
        }
        let r = ComponentReturn { msgs: Vec::new(), actions: Vec::new(), cmds: out };
        proof {
            assert(r.msgs@ =~= Seq::<AppMsg>::empty());
            assert(r.actions@ =~= Seq::<Action>::empty());
        }
        r
    }

    /// Wraps one browser's commands in the top-level command type.
    fn wrap_contract_negotiations_cmds(cmds: Vec<ResourceCmd<ContractNegotiationEntry>>) -> (r: AppReturn)
        ensures
            r.msgs@ == Seq::<AppMsg>::empty(),
            r.actions@ == Seq::<Action>::empty(),
            r.cmds@.len() == cmds@.len(),
            forall|k: int|
                0 <= k < cmds@.len() ==> #[trigger] r.cmds@[k] == AppCmd::ContractNegotiations(cmds@[k]),
    {
        let mut cmds = cmds;
        let ghost orig = cmds@;
        let mut out: Vec<AppCmd> = Vec::new();
        proof {
            assert(out@ =~= Seq::<AppCmd>::empty());
            assert(cmds@ =~= orig.subrange(0, orig.len() as int));
        }
        #[verifier::loop_isolation(false)]
        while cmds.len() > 0
            invariant
                out@.len() + cmds@.len() == orig.len(),
                cmds@ == orig.subrange(out@.len() as int, orig.len() as int),
                forall|k: int| 0 <= k < out@.len() ==> #[trigger] out@[k] == AppCmd::ContractNegotiations(orig[k]),
            decreases cmds@.len(),
        {
            let ghost done = out@.len() as int;
            let c = cmds.remove(0);
            proof {
                assert(c == orig[done]);
                assert(cmds@ =~= orig.subrange(done + 1, orig.len() as int));
            }
            out.push(AppCmd::ContractNegotiations(c));
        }
        let r = ComponentReturn { msgs: Vec::new(), actions: Vec::new(), cmds: out };
        proof {
            assert(r.msgs@ =~= Seq::<AppMsg>::empty());
            assert(r.actions@ =~= Seq::<Action>::empty());
        }
        r
    }

    /// Wraps one browser's commands in the top-level command type.
    fn wrap_contract_agreements_cmds(cmds: Vec<ResourceCmd<ContractAgreementEntry>>) -> (r: AppReturn)
        ensures
            r.msgs@ == Seq::<AppMsg>::empty(),
            r.actions@ == Seq::<Action>::empty(),
            r.cmds@.len() == cmds@.len(),
            forall|k: int|
                0 <= k < cmds@.len() ==> #[trigger] r.cmds@[k] == AppCmd::ContractAgreements(cmds@[k]),
    {
        let mut cmds = cmds;
        let ghost orig = cmds@;
        let mut out: Vec<AppCmd> = Vec::new();
        proof {
            assert(out@ =~= Seq::<AppCmd>::empty());
            assert(cmds@ =~= orig.subrange(0, orig.len() as int));
        }
        #[verifier::loop_isolation(false)]
        while cmds.len() > 0
            invariant
                out@.len() + cmds@.len() == orig.len(),
                cmds@ == orig.subrange(out@.len() as int, orig.len() as int),
                forall|k: int| 0 <= k < out@.len() ==> #[trigger] out@[k] == AppCmd::ContractAgreements(orig[k]),
            decreases cmds@.len(),
        {
            let ghost done = out@.len() as int;
            let c = cmds.remove(0);
            proof {
                assert(c == orig[done]);
                assert(cmds@ =~= orig.subrange(done + 1, orig.len() as int));
            }
            out.push(AppCmd::ContractAgreements(c));
        }
        let r = ComponentReturn { msgs: Vec::new(), actions: Vec::new(), cmds: out };
        proof {
            assert(r.msgs@ =~= Seq::<AppMsg>::empty());
            assert(r.actions@ =~= Seq::<Action>::empty());
        }
        r
    }

    /// Wraps one browser's commands in the top-level command type.
    fn wrap_transfer_processes_cmds(cmds: Vec<ResourceCmd<TransferProcessEntry>>) -> (r: AppReturn)
        ensures
            r.msgs@ == Seq::<AppMsg>::empty(),
            r.actions@ == Seq::<Action>::empty(),
            r.cmds@.len() == cmds@.len(),
            forall|k: int|
                0 <= k < cmds@.len() ==> #[trigger] r.cmds@[k] == AppCmd::TransferProcesses(cmds@[k]),
    {
        let mut cmds = cmds;
        let ghost orig = cmds@;
        let mut out: Vec<AppCmd> = Vec::new();
        proof {
            assert(out@ =~= Seq::<AppCmd>::empty());
            assert(cmds@ =~= orig.subrange(0, orig.len() as int));
        }
        #[verifier::loop_isolation(false)]
        while cmds.len() > 0
            invariant
                out@.len() + cmds@.len() == orig.len(),
                cmds@ == orig.subrange(out@.len() as int, orig.len() as int),
                forall|k: int| 0 <= k < out@.len() ==> #[trigger] out@[k] == AppCmd::TransferProcesses(orig[k]),
            decreases cmds@.len(),
        {
            let ghost done = out@.len() as int;
            let c = cmds.remove(0);
            proof {
                assert(c == orig[done]);
                assert(cmds@ =~= orig.subrange(done + 1, orig.len() as int));
            }
            out.push(AppCmd::TransferProcesses(c));
        }
        let r = ComponentReturn { msgs: Vec::new(), actions: Vec::new(), cmds: out };
        proof {
            assert(r.msgs@ =~= Seq::<AppMsg>::empty());
            assert(r.actions@ =~= Seq::<Action>::empty());
        }
        r
    }

    /// Wraps one browser's commands in the top-level command type.
    fn wrap_edrs_cmds(cmds: Vec<ResourceCmd<EdrMetadataEntry>>) -> (r: AppReturn)
        ensures
            r.msgs@ == Seq::<AppMsg>::empty(),
            r.actions@ == Seq::<Action>::empty(),
            r.cmds@.len() == cmds@.len(),
            forall|k: int|
                0 <= k < cmds@.len() ==> #[trigger] r.cmds@[k] == AppCmd::Edrs(cmds@[k]),
    {
        let mut cmds = cmds;
        let ghost orig = cmds@;
        let mut out: Vec<AppCmd> = Vec::new();
        proof {
            assert(out@ =~= Seq::<AppCmd>::empty());
            assert(cmds@ =~= orig.subrange(0, orig.len() as int));
        }
        #[verifier::loop_isolation(false)]
        while cmds.len() > 0
            invariant
                out@.len() + cmds@.len() == orig.len(),
                cmds@ == orig.subrange(out@.len() as int, orig.len() as int),
                forall|k: int| 0 <= k < out@.len() ==> #[trigger] out@[k] == AppCmd::Edrs(orig[k]),
            decreases cmds@.len(),
        {
            let ghost done = out@.len() as int;
            let c = cmds.remove(0);
            proof {
                assert(c == orig[done]);
                assert(cmds@ =~= orig.subrange(done + 1, orig.len() as int));
            }
            out.push(AppCmd::Edrs(c));
        }
        let r = ComponentReturn { msgs: Vec::new(), actions: Vec::new(), cmds: out };
        proof {
            assert(r.msgs@ =~= Seq::<AppMsg>::empty());
            assert(r.actions@ =~= Seq::<Action>::empty());
        }
        r
    }

    /// Wraps one browser's commands in the top-level command type.
    fn wrap_dataplanes_cmds(cmds: Vec<ResourceCmd<DataPlaneEntry>>) -> (r: AppReturn)
        ensures
            r.msgs@ == Seq::<AppMsg>::empty(),
            r.actions@ == Seq::<Action>::empty(),
            r.cmds@.len() == cmds@.len(),
            forall|k: int|
                0 <= k < cmds@.len() ==> #[trigger] r.cmds@[k] == AppCmd::DataPlanes(cmds@[k]),
    {
        let mut cmds = cmds;
        let ghost orig = cmds@;
        let mut out: Vec<AppCmd> = Vec::new();
        proof {
            assert(out@ =~= Seq::<AppCmd>::empty());
            assert(cmds@ =~= orig.subrange(0, orig.len() as int));
        }
        #[verifier::loop_isolation(false)]
        while cmds.len() > 0
            invariant
                out@.len() + cmds@.len() == orig.len(),
                cmds@ == orig.subrange(out@.len() as int, orig.len() as int),
                forall|k: int| 0 <= k < out@.len() ==> #[trigger] out@[k] == AppCmd::DataPlanes(orig[k]),
            decreases cmds@.len(),
        {
            let ghost done = out@.len() as int;
            let c = cmds.remove(0);
            proof {
                assert(c == orig[done]);
                assert(cmds@ =~= orig.subrange(done + 1, orig.len() as int));
            }
            out.push(AppCmd::DataPlanes(c));
        }
        let r = ComponentReturn { msgs: Vec::new(), actions: Vec::new(), cmds: out };
        proof {
            assert(r.msgs@ =~= Seq::<AppMsg>::empty());
            assert(r.actions@ =~= Seq::<Action>::empty());
        }
        r
    }
}


/// The forwarding discipline for one browser's update result: its messages
/// come back wrapped in order, then each bubbled action as the matching
/// top-level message, and its commands wrapped in order.
pub open spec fn assets_wrapped(
    msgs: Seq<AppMsg>,
    cmds: Seq<AppCmd>,
    bm: Seq<crate::components::resources::msg::ResourcesMsg<AssetEntry, AssetEntry>>,
    ba: Seq<Action>,
    bc: Seq<ResourceCmd<AssetEntry>>,
) -> bool {
    &&& msgs.len() == bm.len() + ba.len()
    &&& forall|k: int| 0 <= k < bm.len() ==> msgs[k] == AppMsg::AssetsMsg(#[trigger] bm[k])
    &&& forall|k: int| 0 <= k < ba.len() ==> msgs[bm.len() + k] == action_msg(#[trigger] ba[k])
    &&& cmds.len() == bc.len()
    &&& forall|k: int| 0 <= k < bc.len() ==> cmds[k] == AppCmd::Assets(#[trigger] bc[k])
}

/// The forwarding discipline for one browser's update result: its messages
/// come back wrapped in order, then each bubbled action as the matching
/// top-level message, and its commands wrapped in order.
pub open spec fn policies_wrapped(
    msgs: Seq<AppMsg>,
    cmds: Seq<AppCmd>,
    bm: Seq<crate::components::resources::msg::ResourcesMsg<PolicyDefinitionEntry, PolicyDefinitionEntry>>,
    ba: Seq<Action>,
    bc: Seq<ResourceCmd<PolicyDefinitionEntry>>,
) -> bool {
    &&& msgs.len() == bm.len() + ba.len()
    &&& forall|k: int| 0 <= k < bm.len() ==> msgs[k] == AppMsg::PoliciesMsg(#[trigger] bm[k])
    &&& forall|k: int| 0 <= k < ba.len() ==> msgs[bm.len() + k] == action_msg(#[trigger] ba[k])
    &&& cmds.len() == bc.len()
    &&& forall|k: int| 0 <= k < bc.len() ==> cmds[k] == AppCmd::Policies(#[trigger] bc[k])
}

/// The forwarding discipline for one browser's update result: its messages
/// come back wrapped in order, then each bubbled action as the matching
/// top-level message, and its commands wrapped in order.
pub open spec fn contract_definitions_wrapped(
    msgs: Seq<AppMsg>,
    cmds: Seq<AppCmd>,
    bm: Seq<crate::components::resources::msg::ResourcesMsg<ContractDefinitionEntry, ContractDefinitionEntry>>,
    ba: Seq<Action>,
    bc: Seq<ResourceCmd<ContractDefinitionEntry>>,
) -> bool {
    &&& msgs.len() == bm.len() + ba.len()
    &&& forall|k: int| 0 <= k < bm.len() ==> msgs[k] == AppMsg::ContractDefinitions(#[trigger] bm[k])
    &&& forall|k: int| 0 <= k < ba.len() ==> msgs[bm.len() + k] == action_msg(#[trigger] ba[k])
    &&& cmds.len() == bc.len()
    &&& forall|k: int| 0 <= k < bc.len() ==> cmds[k] == AppCmd::ContractDefinitions(#[trigger] bc[k])
}

/// The forwarding discipline for one browser's update result: its messages
/// come back wrapped in order, then each bubbled action as the matching
/// top-level message, and its commands wrapped in order.
pub open spec fn contract_negotiations_wrapped(
    msgs: Seq<AppMsg>,
    cmds: Seq<AppCmd>,
    bm: Seq<crate::components::resources::msg::ResourcesMsg<ContractNegotiationEntry, ContractNegotiationEntry>>,
    ba: Seq<Action>,
    bc: Seq<ResourceCmd<ContractNegotiationEntry>>,
) -> bool {
    &&& msgs.len() == bm.len() + ba.len()
    &&& forall|k: int| 0 <= k < bm.len() ==> msgs[k] == AppMsg::ContractNegotiations(#[trigger] bm[k])
    &&& forall|k: int| 0 <= k < ba.len() ==> msgs[bm.len() + k] == action_msg(#[trigger] ba[k])
    &&& cmds.len() == bc.len()
    &&& forall|k: int| 0 <= k < bc.len() ==> cmds[k] == AppCmd::ContractNegotiations(#[trigger] bc[k])
}

/// The forwarding discipline for one browser's update result: its messages
/// come back wrapped in order, then each bubbled action as the matching
/// top-level message, and its commands wrapped in order.
pub open spec fn contract_agreements_wrapped(
    msgs: Seq<AppMsg>,
    cmds: Seq<AppCmd>,
    bm: Seq<crate::components::resources::msg::ResourcesMsg<ContractAgreementEntry, ContractAgreementEntry>>,
    ba: Seq<Action>,
    bc: Seq<ResourceCmd<ContractAgreementEntry>>,
) -> bool {
    &&& msgs.len() == bm.len() + ba.len()
    &&& forall|k: int| 0 <= k < bm.len() ==> msgs[k] == AppMsg::ContractAgreements(#[trigger] bm[k])
    &&& forall|k: int| 0 <= k < ba.len() ==> msgs[bm.len() + k] == action_msg(#[trigger] ba[k])
    &&& cmds.len() == bc.len()
    &&& forall|k: int| 0 <= k < bc.len() ==> cmds[k] == AppCmd::ContractAgreements(#[trigger] bc[k])
}

/// The forwarding discipline for one browser's update result: its messages
/// come back wrapped in order, then each bubbled action as the matching
/// top-level message, and its commands wrapped in order.
pub open spec fn transfer_processes_wrapped(
    msgs: Seq<AppMsg>,
    cmds: Seq<AppCmd>,
    bm: Seq<crate::components::resources::msg::ResourcesMsg<TransferProcessEntry, TransferProcessEntry>>,
    ba: Seq<Action>,
    bc: Seq<ResourceCmd<TransferProcessEntry>>,
) -> bool {
    &&& msgs.len() == bm.len() + ba.len()
    &&& forall|k: int| 0 <= k < bm.len() ==> msgs[k] == AppMsg::TransferProcesses(#[trigger] bm[k])
    &&& forall|k: int| 0 <= k < ba.len() ==> msgs[bm.len() + k] == action_msg(#[trigger] ba[k])
    &&& cmds.len() == bc.len()
    &&& forall|k: int| 0 <= k < bc.len() ==> cmds[k] == AppCmd::TransferProcesses(#[trigger] bc[k])
}

/// The forwarding discipline for one browser's update result: its messages
/// come back wrapped in order, then each bubbled action as the matching
/// top-level message, and its commands wrapped in order.
pub open spec fn edrs_wrapped(
    msgs: Seq<AppMsg>,
    cmds: Seq<AppCmd>,
    bm: Seq<crate::components::resources::msg::ResourcesMsg<EdrMetadataEntry, EdrEntry>>,
    ba: Seq<Action>,
    bc: Seq<ResourceCmd<EdrMetadataEntry>>,
) -> bool {
    &&& msgs.len() == bm.len() + ba.len()
    &&& forall|k: int| 0 <= k < bm.len() ==> msgs[k] == AppMsg::Edrs(#[trigger] bm[k])
    &&& forall|k: int| 0 <= k < ba.len() ==> msgs[bm.len() + k] == action_msg(#[trigger] ba[k])
    &&& cmds.len() == bc.len()
    &&& forall|k: int| 0 <= k < bc.len() ==> cmds[k] == AppCmd::Edrs(#[trigger] bc[k])
}

/// The forwarding discipline for one browser's update result: its messages
/// come back wrapped in order, then each bubbled action as the matching
/// top-level message, and its commands wrapped in order.
pub open spec fn dataplanes_wrapped(
    msgs: Seq<AppMsg>,
    cmds: Seq<AppCmd>,
    bm: Seq<crate::components::resources::msg::ResourcesMsg<DataPlaneEntry, DataPlaneEntry>>,
    ba: Seq<Action>,
    bc: Seq<ResourceCmd<DataPlaneEntry>>,
) -> bool {
    &&& msgs.len() == bm.len() + ba.len()
    &&& forall|k: int| 0 <= k < bm.len() ==> msgs[k] == AppMsg::DataPlanes(#[trigger] bm[k])
    &&& forall|k: int| 0 <= k < ba.len() ==> msgs[bm.len() + k] == action_msg(#[trigger] ba[k])
    &&& cmds.len() == bc.len()
    &&& forall|k: int| 0 <= k < bc.len() ==> cmds[k] == AppCmd::DataPlanes(#[trigger] bc[k])
}


/// Only the named browser may differ; every other component of the
/// interface is untouched.
pub open spec fn only_assets_changed(pre: App, post: App) -> bool {
    &&& post.connectors == pre.connectors
    &&& post.launch_bar == pre.launch_bar
    &&& post.launch_bar_visible == pre.launch_bar_visible
    &&& post.focus == pre.focus
    &&& post.header == pre.header
    &&& post.footer == pre.footer
    &&& post.should_quit == pre.should_quit
    &&& post.policies == pre.policies
    &&& post.contract_definitions == pre.contract_definitions
    &&& post.contract_negotiations == pre.contract_negotiations
    &&& post.contract_agreements == pre.contract_agreements
    &&& post.transfer_processes == pre.transfer_processes
    &&& post.edrs == pre.edrs
    &&& post.dataplanes == pre.dataplanes
}

/// Only the named browser may differ; every other component of the
/// interface is untouched.
pub open spec fn only_policies_changed(pre: App, post: App) -> bool {
    &&& post.connectors == pre.connectors
    &&& post.launch_bar == pre.launch_bar
    &&& post.launch_bar_visible == pre.launch_bar_visible
    &&& post.focus == pre.focus
    &&& post.header == pre.header
    &&& post.footer == pre.footer
    &&& post.should_quit == pre.should_quit
    &&& post.assets == pre.assets
    &&& post.contract_definitions == pre.contract_definitions
    &&& post.contract_negotiations == pre.contract_negotiations
    &&& post.contract_agreements == pre.contract_agreements
    &&& post.transfer_processes == pre.transfer_processes
    &&& post.edrs == pre.edrs
    &&& post.dataplanes == pre.dataplanes
}

/// Only the named browser may differ; every other component of the
/// interface is untouched.
pub open spec fn only_contract_definitions_changed(pre: App, post: App) -> bool {
    &&& post.connectors == pre.connectors
    &&& post.launch_bar == pre.launch_bar
    &&& post.launch_bar_visible == pre.launch_bar_visible
    &&& post.focus == pre.focus
    &&& post.header == pre.header
    &&& post.footer == pre.footer
    &&& post.should_quit == pre.should_quit
    &&& post.assets == pre.assets
    &&& post.policies == pre.policies
    &&& post.contract_negotiations == pre.contract_negotiations
    &&& post.contract_agreements == pre.contract_agreements
    &&& post.transfer_processes == pre.transfer_processes
    &&& post.edrs == pre.edrs
    &&& post.dataplanes == pre.dataplanes
}

/// Only the named browser may differ; every other component of the
/// interface is untouched.
pub open spec fn only_contract_negotiations_changed(pre: App, post: App) -> bool {
    &&& post.connectors == pre.connectors
    &&& post.launch_bar == pre.launch_bar
    &&& post.launch_bar_visible == pre.launch_bar_visible
    &&& post.focus == pre.focus
    &&& post.header == pre.header
    &&& post.footer == pre.footer
    &&& post.should_quit == pre.should_quit
    &&& post.assets == pre.assets
    &&& post.policies == pre.policies
    &&& post.contract_definitions == pre.contract_definitions
    &&& post.contract_agreements == pre.contract_agreements
    &&& post.transfer_processes == pre.transfer_processes
    &&& post.edrs == pre.edrs
    &&& post.dataplanes == pre.dataplanes
}

/// Only the named browser may differ; every other component of the
/// interface is untouched.
pub open spec fn only_contract_agreements_changed(pre: App, post: App) -> bool {
    &&& post.connectors == pre.connectors
    &&& post.launch_bar == pre.launch_bar
    &&& post.launch_bar_visible == pre.launch_bar_visible
    &&& post.focus == pre.focus
    &&& post.header == pre.header
    &&& post.footer == pre.footer
    &&& post.should_quit == pre.should_quit
    &&& post.assets == pre.assets
    &&& post.policies == pre.policies
    &&& post.contract_definitions == pre.contract_definitions
    &&& post.contract_negotiations == pre.contract_negotiations
    &&& post.transfer_processes == pre.transfer_processes
    &&& post.edrs == pre.edrs
    &&& post.dataplanes == pre.dataplanes
}

/// Only the named browser may differ; every other component of the
/// interface is untouched.
pub open spec fn only_transfer_processes_changed(pre: App, post: App) -> bool {
    &&& post.connectors == pre.connectors
    &&& post.launch_bar == pre.launch_bar
    &&& post.launch_bar_visible == pre.launch_bar_visible
    &&& post.focus == pre.focus
    &&& post.header == pre.header
    &&& post.footer == pre.footer
    &&& post.should_quit == pre.should_quit
    &&& post.assets == pre.assets
    &&& post.policies == pre.policies
    &&& post.contract_definitions == pre.contract_definitions
    &&& post.contract_negotiations == pre.contract_negotiations
    &&& post.contract_agreements == pre.contract_agreements
    &&& post.edrs == pre.edrs
    &&& post.dataplanes == pre.dataplanes
}

/// Only the named browser may differ; every other component of the
/// interface is untouched.
pub open spec fn only_edrs_changed(pre: App, post: App) -> bool {
    &&& post.connectors == pre.connectors
    &&& post.launch_bar == pre.launch_bar
    &&& post.launch_bar_visible == pre.launch_bar_visible
    &&& post.focus == pre.focus
    &&& post.header == pre.header
    &&& post.footer == pre.footer
    &&& post.should_quit == pre.should_quit
    &&& post.assets == pre.assets
    &&& post.policies == pre.policies
    &&& post.contract_definitions == pre.contract_definitions
    &&& post.contract_negotiations == pre.contract_negotiations
    &&& post.contract_agreements == pre.contract_agreements
    &&& post.transfer_processes == pre.transfer_processes
    &&& post.dataplanes == pre.dataplanes
}

/// Only the named browser may differ; every other component of the
/// interface is untouched.
pub open spec fn only_dataplanes_changed(pre: App, post: App) -> bool {
    &&& post.connectors == pre.connectors
    &&& post.launch_bar == pre.launch_bar
    &&& post.launch_bar_visible == pre.launch_bar_visible
    &&& post.focus == pre.focus
    &&& post.header == pre.header
    &&& post.footer == pre.footer
    &&& post.should_quit == pre.should_quit
    &&& post.assets == pre.assets
    &&& post.policies == pre.policies
    &&& post.contract_definitions == pre.contract_definitions
    &&& post.contract_negotiations == pre.contract_negotiations
    &&& post.contract_agreements == pre.contract_agreements
    &&& post.transfer_processes == pre.transfer_processes
    &&& post.edrs == pre.edrs
}

/// A child's bubbled action as the top-level message that carries it out:
/// navigation, a help-sheet recompute, or a notification to show.
pub open spec fn action_msg(a: Action) -> AppMsg {
    match a {
        Action::NavTo(nav) => AppMsg::RoutingMsg(nav),
        Action::ChangeSheet => AppMsg::ChangeSheet,
        Action::Notification(n) => AppMsg::NontificationMsg(NotificationMsg::Show(n)),
    }
}

impl App {
    /// A child's bubbled action as the top-level message that carries it
    /// out.
    fn action_to_msg(a: Action) -> (m: AppMsg)
        ensures
            m == action_msg(a),
    {
        match a {
            Action::NavTo(nav) => AppMsg::RoutingMsg(nav),
            Action::ChangeSheet => AppMsg::ChangeSheet,
            Action::Notification(n) => AppMsg::NontificationMsg(NotificationMsg::Show(n)),
        }
    }

    /// Wraps one browser's update result, as [`assets_wrapped`] states: its
    /// messages and commands in the top-level types in order, its bubbled
    /// actions as top-level messages after them.
    fn wrap_assets_return(
        br: crate::components::resources::ResourcesReturn<AssetEntry, AssetEntry>,
    ) -> (r: AppReturn)
        ensures
            r.actions@ == Seq::<Action>::empty(),
            assets_wrapped(r.msgs@, r.cmds@, br.msgs@, br.actions@, br.cmds@),
    {
        let mut msgs: Vec<AppMsg> = Vec::new();
        let mut inner_msgs = br.msgs;
        let ghost bm = inner_msgs@;
        proof {
            assert(inner_msgs@ =~= bm.subrange(0, bm.len() as int));
        }
        #[verifier::loop_isolation(false)]
        while inner_msgs.len() > 0
            invariant
                msgs@.len() + inner_msgs@.len() == bm.len(),
                inner_msgs@ == bm.subrange(msgs@.len() as int, bm.len() as int),
                forall|k: int| 0 <= k < msgs@.len() ==> msgs@[k] == AppMsg::AssetsMsg(#[trigger] bm[k]),
            decreases inner_msgs@.len(),
        {
            let ghost done = msgs@.len() as int;
            let m = inner_msgs.remove(0);
            proof {
                assert(m == bm[done]);
                assert(inner_msgs@ =~= bm.subrange(done + 1, bm.len() as int));
            }
            msgs.push(AppMsg::AssetsMsg(m));
        }
        let mut actions = br.actions;
        let ghost ba = actions@;
        proof {
            assert(actions@ =~= ba.subrange(0, ba.len() as int));
        }
        #[verifier::loop_isolation(false)]
        while actions.len() > 0
            invariant
                bm.len() <= msgs@.len(),
                actions@.len() <= ba.len(),
                msgs@.len() == bm.len() + ba.len() - actions@.len(),
                actions@ == ba.subrange(msgs@.len() - bm.len(), ba.len() as int),
                forall|k: int| 0 <= k < bm.len() ==> msgs@[k] == AppMsg::AssetsMsg(#[trigger] bm[k]),
                forall|k: int|
                    0 <= k < msgs@.len() - bm.len() ==> msgs@[bm.len() + k] == action_msg(
                        #[trigger] ba[k],
                    ),
            decreases actions@.len(),
        {
            let ghost done = msgs@.len() - bm.len();
            let a = actions.remove(0);
            proof {
                assert(a == ba[done]);
                assert(actions@ =~= ba.subrange(done + 1, ba.len() as int));
            }
            msgs.push(Self::action_to_msg(a));
        }
        let mut cmds: Vec<AppCmd> = Vec::new();
        let mut inner_cmds = br.cmds;
        let ghost bc = inner_cmds@;
        proof {
            assert(inner_cmds@ =~= bc.subrange(0, bc.len() as int));
        }
        #[verifier::loop_isolation(false)]
        while inner_cmds.len() > 0
            invariant
                cmds@.len() + inner_cmds@.len() == bc.len(),
                inner_cmds@ == bc.subrange(cmds@.len() as int, bc.len() as int),
                forall|k: int| 0 <= k < cmds@.len() ==> cmds@[k] == AppCmd::Assets(#[trigger] bc[k]),
            decreases inner_cmds@.len(),
        {
            let ghost done = cmds@.len() as int;
            let c = inner_cmds.remove(0);
            proof {
                assert(c == bc[done]);
                assert(inner_cmds@ =~= bc.subrange(done + 1, bc.len() as int));
            }
            cmds.push(AppCmd::Assets(c));
        }
        let r = AppReturn { msgs, actions: Vec::new(), cmds };
        proof {
            assert(r.actions@ =~= Seq::<Action>::empty());
        }
        r
    }

    /// Wraps one browser's update result, as [`policies_wrapped`] states: its
    /// messages and commands in the top-level types in order, its bubbled
    /// actions as top-level messages after them.
    fn wrap_policies_return(
        br: crate::components::resources::ResourcesReturn<PolicyDefinitionEntry, PolicyDefinitionEntry>,
    ) -> (r: AppReturn)
        ensures
            r.actions@ == Seq::<Action>::empty(),
            policies_wrapped(r.msgs@, r.cmds@, br.msgs@, br.actions@, br.cmds@),
    {
        let mut msgs: Vec<AppMsg> = Vec::new();
        let mut inner_msgs = br.msgs;
        let ghost bm = inner_msgs@;
        proof {
            assert(inner_msgs@ =~= bm.subrange(0, bm.len() as int));
        }
        #[verifier::loop_isolation(false)]
        while inner_msgs.len() > 0
            invariant
                msgs@.len() + inner_msgs@.len() == bm.len(),
                inner_msgs@ == bm.subrange(msgs@.len() as int, bm.len() as int),
                forall|k: int| 0 <= k < msgs@.len() ==> msgs@[k] == AppMsg::PoliciesMsg(#[trigger] bm[k]),
            decreases inner_msgs@.len(),
        {
            let ghost done = msgs@.len() as int;
            let m = inner_msgs.remove(0);
            proof {
                assert(m == bm[done]);
                assert(inner_msgs@ =~= bm.subrange(done + 1, bm.len() as int));
            }
            msgs.push(AppMsg::PoliciesMsg(m));
        }
        let mut actions = br.actions;
        let ghost ba = actions@;
        proof {
            assert(actions@ =~= ba.subrange(0, ba.len() as int));
        }
        #[verifier::loop_isolation(false)]
        while actions.len() > 0
            invariant
                bm.len() <= msgs@.len(),
                actions@.len() <= ba.len(),
                msgs@.len() == bm.len() + ba.len() - actions@.len(),
                actions@ == ba.subrange(msgs@.len() - bm.len(), ba.len() as int),
                forall|k: int| 0 <= k < bm.len() ==> msgs@[k] == AppMsg::PoliciesMsg(#[trigger] bm[k]),
                forall|k: int|
                    0 <= k < msgs@.len() - bm.len() ==> msgs@[bm.len() + k] == action_msg(
                        #[trigger] ba[k],
                    ),
            decreases actions@.len(),
        {
            let ghost done = msgs@.len() - bm.len();
            let a = actions.remove(0);
            proof {
                assert(a == ba[done]);
                assert(actions@ =~= ba.subrange(done + 1, ba.len() as int));
            }
            msgs.push(Self::action_to_msg(a));
        }
        let mut cmds: Vec<AppCmd> = Vec::new();
        let mut inner_cmds = br.cmds;
        let ghost bc = inner_cmds@;
        proof {
            assert(inner_cmds@ =~= bc.subrange(0, bc.len() as int));
        }
        #[verifier::loop_isolation(false)]
        while inner_cmds.len() > 0
            invariant
                cmds@.len() + inner_cmds@.len() == bc.len(),
                inner_cmds@ == bc.subrange(cmds@.len() as int, bc.len() as int),
                forall|k: int| 0 <= k < cmds@.len() ==> cmds@[k] == AppCmd::Policies(#[trigger] bc[k]),
            decreases inner_cmds@.len(),
        {
            let ghost done = cmds@.len() as int;
            let c = inner_cmds.remove(0);
            proof {
                assert(c == bc[done]);
                assert(inner_cmds@ =~= bc.subrange(done + 1, bc.len() as int));
            }
            cmds.push(AppCmd::Policies(c));
        }
        let r = AppReturn { msgs, actions: Vec::new(), cmds };
        proof {
            assert(r.actions@ =~= Seq::<Action>::empty());
        }
        r
    }

    /// Wraps one browser's update result, as [`contract_definitions_wrapped`] states: its
    /// messages and commands in the top-level types in order, its bubbled
    /// actions as top-level messages after them.
    fn wrap_contract_definitions_return(
        br: crate::components::resources::ResourcesReturn<ContractDefinitionEntry, ContractDefinitionEntry>,
    ) -> (r: AppReturn)
        ensures
            r.actions@ == Seq::<Action>::empty(),
            contract_definitions_wrapped(r.msgs@, r.cmds@, br.msgs@, br.actions@, br.cmds@),
    {
        let mut msgs: Vec<AppMsg> = Vec::new();
        let mut inner_msgs = br.msgs;
        let ghost bm = inner_msgs@;
        proof {
            assert(inner_msgs@ =~= bm.subrange(0, bm.len() as int));
        }
        #[verifier::loop_isolation(false)]
        while inner_msgs.len() > 0
            invariant
                msgs@.len() + inner_msgs@.len() == bm.len(),
                inner_msgs@ == bm.subrange(msgs@.len() as int, bm.len() as int),
                forall|k: int| 0 <= k < msgs@.len() ==> msgs@[k] == AppMsg::ContractDefinitions(#[trigger] bm[k]),
            decreases inner_msgs@.len(),
        {
            let ghost done = msgs@.len() as int;
            let m = inner_msgs.remove(0);
            proof {
                assert(m == bm[done]);
                assert(inner_msgs@ =~= bm.subrange(done + 1, bm.len() as int));
            }
            msgs.push(AppMsg::ContractDefinitions(m));
        }
        let mut actions = br.actions;
        let ghost ba = actions@;
        proof {
            assert(actions@ =~= ba.subrange(0, ba.len() as int));
        }
        #[verifier::loop_isolation(false)]
        while actions.len() > 0
            invariant
                bm.len() <= msgs@.len(),
                actions@.len() <= ba.len(),
                msgs@.len() == bm.len() + ba.len() - actions@.len(),
                actions@ == ba.subrange(msgs@.len() - bm.len(), ba.len() as int),
                forall|k: int| 0 <= k < bm.len() ==> msgs@[k] == AppMsg::ContractDefinitions(#[trigger] bm[k]),
                forall|k: int|
                    0 <= k < msgs@.len() - bm.len() ==> msgs@[bm.len() + k] == action_msg(
                        #[trigger] ba[k],
                    ),
            decreases actions@.len(),
        {
            let ghost done = msgs@.len() - bm.len();
            let a = actions.remove(0);
            proof {
                assert(a == ba[done]);
                assert(actions@ =~= ba.subrange(done + 1, ba.len() as int));
            }
            msgs.push(Self::action_to_msg(a));
        }
        let mut cmds: Vec<AppCmd> = Vec::new();
        let mut inner_cmds = br.cmds;
        let ghost bc = inner_cmds@;
        proof {
            assert(inner_cmds@ =~= bc.subrange(0, bc.len() as int));
        }
        #[verifier::loop_isolation(false)]
        while inner_cmds.len() > 0
            invariant
                cmds@.len() + inner_cmds@.len() == bc.len(),
                inner_cmds@ == bc.subrange(cmds@.len() as int, bc.len() as int),
                forall|k: int| 0 <= k < cmds@.len() ==> cmds@[k] == AppCmd::ContractDefinitions(#[trigger] bc[k]),
            decreases inner_cmds@.len(),
        {
            let ghost done = cmds@.len() as int;
            let c = inner_cmds.remove(0);
            proof {
                assert(c == bc[done]);
                assert(inner_cmds@ =~= bc.subrange(done + 1, bc.len() as int));
            }
            cmds.push(AppCmd::ContractDefinitions(c));
        }
        let r = AppReturn { msgs, actions: Vec::new(), cmds };
        proof {
            assert(r.actions@ =~= Seq::<Action>::empty());
        }
        r
    }

    /// Wraps one browser's update result, as [`contract_negotiations_wrapped`] states: its
    /// messages and commands in the top-level types in order, its bubbled
    /// actions as top-level messages after them.
    fn wrap_contract_negotiations_return(
        br: crate::components::resources::ResourcesReturn<ContractNegotiationEntry, ContractNegotiationEntry>,
    ) -> (r: AppReturn)
        ensures
            r.actions@ == Seq::<Action>::empty(),
            contract_negotiations_wrapped(r.msgs@, r.cmds@, br.msgs@, br.actions@, br.cmds@),
    {
        let mut msgs: Vec<AppMsg> = Vec::new();
        let mut inner_msgs = br.msgs;
        let ghost bm = inner_msgs@;
        proof {
            assert(inner_msgs@ =~= bm.subrange(0, bm.len() as int));
        }
        #[verifier::loop_isolation(false)]
        while inner_msgs.len() > 0
            invariant
                msgs@.len() + inner_msgs@.len() == bm.len(),
                inner_msgs@ == bm.subrange(msgs@.len() as int, bm.len() as int),
                forall|k: int| 0 <= k < msgs@.len() ==> msgs@[k] == AppMsg::ContractNegotiations(#[trigger] bm[k]),
            decreases inner_msgs@.len(),
        {
            let ghost done = msgs@.len() as int;
            let m = inner_msgs.remove(0);
            proof {
                assert(m == bm[done]);
                assert(inner_msgs@ =~= bm.subrange(done + 1, bm.len() as int));
            }
            msgs.push(AppMsg::ContractNegotiations(m));
        }
        let mut actions = br.actions;
        let ghost ba = actions@;
        proof {
            assert(actions@ =~= ba.subrange(0, ba.len() as int));
        }
        #[verifier::loop_isolation(false)]
        while actions.len() > 0
            invariant
                bm.len() <= msgs@.len(),
                actions@.len() <= ba.len(),
                msgs@.len() == bm.len() + ba.len() - actions@.len(),
                actions@ == ba.subrange(msgs@.len() - bm.len(), ba.len() as int),
                forall|k: int| 0 <= k < bm.len() ==> msgs@[k] == AppMsg::ContractNegotiations(#[trigger] bm[k]),
                forall|k: int|
                    0 <= k < msgs@.len() - bm.len() ==> msgs@[bm.len() + k] == action_msg(
                        #[trigger] ba[k],
                    ),
            decreases actions@.len(),
        {
            let ghost done = msgs@.len() - bm.len();
            let a = actions.remove(0);
            proof {
                assert(a == ba[done]);
                assert(actions@ =~= ba.subrange(done + 1, ba.len() as int));
            }
            msgs.push(Self::action_to_msg(a));
        }
        let mut cmds: Vec<AppCmd> = Vec::new();
        let mut inner_cmds = br.cmds;
        let ghost bc = inner_cmds@;
        proof {
            assert(inner_cmds@ =~= bc.subrange(0, bc.len() as int));
        }
        #[verifier::loop_isolation(false)]
        while inner_cmds.len() > 0
            invariant
                cmds@.len() + inner_cmds@.len() == bc.len(),
                inner_cmds@ == bc.subrange(cmds@.len() as int, bc.len() as int),
                forall|k: int| 0 <= k < cmds@.len() ==> cmds@[k] == AppCmd::ContractNegotiations(#[trigger] bc[k]),
            decreases inner_cmds@.len(),
        {
            let ghost done = cmds@.len() as int;
            let c = inner_cmds.remove(0);
            proof {
                assert(c == bc[done]);
                assert(inner_cmds@ =~= bc.subrange(done + 1, bc.len() as int));
            }
            cmds.push(AppCmd::ContractNegotiations(c));
        }
        let r = AppReturn { msgs, actions: Vec::new(), cmds };
        proof {
            assert(r.actions@ =~= Seq::<Action>::empty());
        }
        r
    }

    /// Wraps one browser's update result, as [`contract_agreements_wrapped`] states: its
    /// messages and commands in the top-level types in order, its bubbled
    /// actions as top-level messages after them.
    fn wrap_contract_agreements_return(
        br: crate::components::resources::ResourcesReturn<ContractAgreementEntry, ContractAgreementEntry>,
    ) -> (r: AppReturn)
        ensures
            r.actions@ == Seq::<Action>::empty(),
            contract_agreements_wrapped(r.msgs@, r.cmds@, br.msgs@, br.actions@, br.cmds@),
    {
        let mut msgs: Vec<AppMsg> = Vec::new();
        let mut inner_msgs = br.msgs;
        let ghost bm = inner_msgs@;
        proof {
            assert(inner_msgs@ =~= bm.subrange(0, bm.len() as int));
        }
        #[verifier::loop_isolation(false)]
        while inner_msgs.len() > 0
            invariant
                msgs@.len() + inner_msgs@.len() == bm.len(),
                inner_msgs@ == bm.subrange(msgs@.len() as int, bm.len() as int),
                forall|k: int| 0 <= k < msgs@.len() ==> msgs@[k] == AppMsg::ContractAgreements(#[trigger] bm[k]),
            decreases inner_msgs@.len(),
        {
            let ghost done = msgs@.len() as int;
            let m = inner_msgs.remove(0);
            proof {
                assert(m == bm[done]);
                assert(inner_msgs@ =~= bm.subrange(done + 1, bm.len() as int));
            }
            msgs.push(AppMsg::ContractAgreements(m));
        }
        let mut actions = br.actions;
        let ghost ba = actions@;
        proof {
            assert(actions@ =~= ba.subrange(0, ba.len() as int));
        }
        #[verifier::loop_isolation(false)]
        while actions.len() > 0
            invariant
                bm.len() <= msgs@.len(),
                actions@.len() <= ba.len(),
                msgs@.len() == bm.len() + ba.len() - actions@.len(),
                actions@ == ba.subrange(msgs@.len() - bm.len(), ba.len() as int),
                forall|k: int| 0 <= k < bm.len() ==> msgs@[k] == AppMsg::ContractAgreements(#[trigger] bm[k]),
                forall|k: int|
                    0 <= k < msgs@.len() - bm.len() ==> msgs@[bm.len() + k] == action_msg(
                        #[trigger] ba[k],
                    ),
            decreases actions@.len(),
        {
            let ghost done = msgs@.len() - bm.len();
            let a = actions.remove(0);
            proof {
                assert(a == ba[done]);
                assert(actions@ =~= ba.subrange(done + 1, ba.len() as int));
            }
            msgs.push(Self::action_to_msg(a));
        }
        let mut cmds: Vec<AppCmd> = Vec::new();
        let mut inner_cmds = br.cmds;
        let ghost bc = inner_cmds@;
        proof {
            assert(inner_cmds@ =~= bc.subrange(0, bc.len() as int));
        }
        #[verifier::loop_isolation(false)]
        while inner_cmds.len() > 0
            invariant
                cmds@.len() + inner_cmds@.len() == bc.len(),
                inner_cmds@ == bc.subrange(cmds@.len() as int, bc.len() as int),
                forall|k: int| 0 <= k < cmds@.len() ==> cmds@[k] == AppCmd::ContractAgreements(#[trigger] bc[k]),
            decreases inner_cmds@.len(),
        {
            let ghost done = cmds@.len() as int;
            let c = inner_cmds.remove(0);
            proof {
                assert(c == bc[done]);
                assert(inner_cmds@ =~= bc.subrange(done + 1, bc.len() as int));
            }
            cmds.push(AppCmd::ContractAgreements(c));
        }
        let r = AppReturn { msgs, actions: Vec::new(), cmds };
        proof {
            assert(r.actions@ =~= Seq::<Action>::empty());
        }
        r
    }

    /// Wraps one browser's update result, as [`transfer_processes_wrapped`] states: its
    /// messages and commands in the top-level types in order, its bubbled
    /// actions as top-level messages after them.
    fn wrap_transfer_processes_return(
        br: crate::components::resources::ResourcesReturn<TransferProcessEntry, TransferProcessEntry>,
    ) -> (r: AppReturn)
        ensures
            r.actions@ == Seq::<Action>::empty(),
            transfer_processes_wrapped(r.msgs@, r.cmds@, br.msgs@, br.actions@, br.cmds@),
    {
        let mut msgs: Vec<AppMsg> = Vec::new();
        let mut inner_msgs = br.msgs;
        let ghost bm = inner_msgs@;
        proof {
            assert(inner_msgs@ =~= bm.subrange(0, bm.len() as int));
        }
        #[verifier::loop_isolation(false)]
        while inner_msgs.len() > 0
            invariant
                msgs@.len() + inner_msgs@.len() == bm.len(),
                inner_msgs@ == bm.subrange(msgs@.len() as int, bm.len() as int),
                forall|k: int| 0 <= k < msgs@.len() ==> msgs@[k] == AppMsg::TransferProcesses(#[trigger] bm[k]),
            decreases inner_msgs@.len(),
        {
            let ghost done = msgs@.len() as int;
            let m = inner_msgs.remove(0);
            proof {
                assert(m == bm[done]);
                assert(inner_msgs@ =~= bm.subrange(done + 1, bm.len() as int));
            }
            msgs.push(AppMsg::TransferProcesses(m));
        }
        let mut actions = br.actions;
        let ghost ba = actions@;
        proof {
            assert(actions@ =~= ba.subrange(0, ba.len() as int));
        }
        #[verifier::loop_isolation(false)]
        while actions.len() > 0
            invariant
                bm.len() <= msgs@.len(),
                actions@.len() <= ba.len(),
                msgs@.len() == bm.len() + ba.len() - actions@.len(),
                actions@ == ba.subrange(msgs@.len() - bm.len(), ba.len() as int),
                forall|k: int| 0 <= k < bm.len() ==> msgs@[k] == AppMsg::TransferProcesses(#[trigger] bm[k]),
                forall|k: int|
                    0 <= k < msgs@.len() - bm.len() ==> msgs@[bm.len() + k] == action_msg(
                        #[trigger] ba[k],
                    ),
            decreases actions@.len(),
        {
            let ghost done = msgs@.len() - bm.len();
            let a = actions.remove(0);
            proof {
                assert(a == ba[done]);
                assert(actions@ =~= ba.subrange(done + 1, ba.len() as int));
            }
            msgs.push(Self::action_to_msg(a));
        }
        let mut cmds: Vec<AppCmd> = Vec::new();
        let mut inner_cmds = br.cmds;
        let ghost bc = inner_cmds@;
        proof {
            assert(inner_cmds@ =~= bc.subrange(0, bc.len() as int));
        }
        #[verifier::loop_isolation(false)]
        while inner_cmds.len() > 0
            invariant
                cmds@.len() + inner_cmds@.len() == bc.len(),
                inner_cmds@ == bc.subrange(cmds@.len() as int, bc.len() as int),
                forall|k: int| 0 <= k < cmds@.len() ==> cmds@[k] == AppCmd::TransferProcesses(#[trigger] bc[k]),
            decreases inner_cmds@.len(),
        {
            let ghost done = cmds@.len() as int;
            let c = inner_cmds.remove(0);
            proof {
                assert(c == bc[done]);
                assert(inner_cmds@ =~= bc.subrange(done + 1, bc.len() as int));
            }
            cmds.push(AppCmd::TransferProcesses(c));
        }
        let r = AppReturn { msgs, actions: Vec::new(), cmds };
        proof {
            assert(r.actions@ =~= Seq::<Action>::empty());
        }
        r
    }

    /// Wraps one browser's update result, as [`edrs_wrapped`] states: its
    /// messages and commands in the top-level types in order, its bubbled
    /// actions as top-level messages after them.
    fn wrap_edrs_return(
        br: crate::components::resources::ResourcesReturn<EdrMetadataEntry, EdrEntry>,
    ) -> (r: AppReturn)
        ensures
            r.actions@ == Seq::<Action>::empty(),
            edrs_wrapped(r.msgs@, r.cmds@, br.msgs@, br.actions@, br.cmds@),
    {
        let mut msgs: Vec<AppMsg> = Vec::new();
        let mut inner_msgs = br.msgs;
        let ghost bm = inner_msgs@;
        proof {
            assert(inner_msgs@ =~= bm.subrange(0, bm.len() as int));
        }
        #[verifier::loop_isolation(false)]
        while inner_msgs.len() > 0
            invariant
                msgs@.len() + inner_msgs@.len() == bm.len(),
                inner_msgs@ == bm.subrange(msgs@.len() as int, bm.len() as int),
                forall|k: int| 0 <= k < msgs@.len() ==> msgs@[k] == AppMsg::Edrs(#[trigger] bm[k]),
            decreases inner_msgs@.len(),
        {
            let ghost done = msgs@.len() as int;
            let m = inner_msgs.remove(0);
            proof {
                assert(m == bm[done]);
                assert(inner_msgs@ =~= bm.subrange(done + 1, bm.len() as int));
            }
            msgs.push(AppMsg::Edrs(m));
        }
        let mut actions = br.actions;
        let ghost ba = actions@;
        proof {
            assert(actions@ =~= ba.subrange(0, ba.len() as int));
        }
        #[verifier::loop_isolation(false)]
        while actions.len() > 0
            invariant
                bm.len() <= msgs@.len(),
                actions@.len() <= ba.len(),
                msgs@.len() == bm.len() + ba.len() - actions@.len(),
                actions@ == ba.subrange(msgs@.len() - bm.len(), ba.len() as int),
                forall|k: int| 0 <= k < bm.len() ==> msgs@[k] == AppMsg::Edrs(#[trigger] bm[k]),
                forall|k: int|
                    0 <= k < msgs@.len() - bm.len() ==> msgs@[bm.len() + k] == action_msg(
                        #[trigger] ba[k],
                    ),
            decreases actions@.len(),
        {
            let ghost done = msgs@.len() - bm.len();
            let a = actions.remove(0);
            proof {
                assert(a == ba[done]);
                assert(actions@ =~= ba.subrange(done + 1, ba.len() as int));
            }
            msgs.push(Self::action_to_msg(a));
        }
        let mut cmds: Vec<AppCmd> = Vec::new();
        let mut inner_cmds = br.cmds;
        let ghost bc = inner_cmds@;
        proof {
            assert(inner_cmds@ =~= bc.subrange(0, bc.len() as int));
        }
        #[verifier::loop_isolation(false)]
        while inner_cmds.len() > 0
            invariant
                cmds@.len() + inner_cmds@.len() == bc.len(),
                inner_cmds@ == bc.subrange(cmds@.len() as int, bc.len() as int),
                forall|k: int| 0 <= k < cmds@.len() ==> cmds@[k] == AppCmd::Edrs(#[trigger] bc[k]),
            decreases inner_cmds@.len(),
        {
            let ghost done = cmds@.len() as int;
            let c = inner_cmds.remove(0);
            proof {
                assert(c == bc[done]);
                assert(inner_cmds@ =~= bc.subrange(done + 1, bc.len() as int));
            }
            cmds.push(AppCmd::Edrs(c));
        }
        let r = AppReturn { msgs, actions: Vec::new(), cmds };
        proof {
            assert(r.actions@ =~= Seq::<Action>::empty());
        }
        r
    }

    /// Wraps one browser's update result, as [`dataplanes_wrapped`] states: its
    /// messages and commands in the top-level types in order, its bubbled
    /// actions as top-level messages after them.
    fn wrap_dataplanes_return(
        br: crate::components::resources::ResourcesReturn<DataPlaneEntry, DataPlaneEntry>,
    ) -> (r: AppReturn)
        ensures
            r.actions@ == Seq::<Action>::empty(),
            dataplanes_wrapped(r.msgs@, r.cmds@, br.msgs@, br.actions@, br.cmds@),
    {
        let mut msgs: Vec<AppMsg> = Vec::new();
        let mut inner_msgs = br.msgs;
        let ghost bm = inner_msgs@;
        proof {
            assert(inner_msgs@ =~= bm.subrange(0, bm.len() as int));
        }
        #[verifier::loop_isolation(false)]
        while inner_msgs.len() > 0
            invariant
                msgs@.len() + inner_msgs@.len() == bm.len(),
                inner_msgs@ == bm.subrange(msgs@.len() as int, bm.len() as int),
                forall|k: int| 0 <= k < msgs@.len() ==> msgs@[k] == AppMsg::DataPlanes(#[trigger] bm[k]),
            decreases inner_msgs@.len(),
        {
            let ghost done = msgs@.len() as int;
            let m = inner_msgs.remove(0);
            proof {
                assert(m == bm[done]);
                assert(inner_msgs@ =~= bm.subrange(done + 1, bm.len() as int));
            }
            msgs.push(AppMsg::DataPlanes(m));
        }
        let mut actions = br.actions;
        let ghost ba = actions@;
        proof {
            assert(actions@ =~= ba.subrange(0, ba.len() as int));
        }
        #[verifier::loop_isolation(false)]
        while actions.len() > 0
            invariant
                bm.len() <= msgs@.len(),
                actions@.len() <= ba.len(),
                msgs@.len() == bm.len() + ba.len() - actions@.len(),
                actions@ == ba.subrange(msgs@.len() - bm.len(), ba.len() as int),
                forall|k: int| 0 <= k < bm.len() ==> msgs@[k] == AppMsg::DataPlanes(#[trigger] bm[k]),
                forall|k: int|
                    0 <= k < msgs@.len() - bm.len() ==> msgs@[bm.len() + k] == action_msg(
                        #[trigger] ba[k],
                    ),
            decreases actions@.len(),
        {
            let ghost done = msgs@.len() - bm.len();
            let a = actions.remove(0);
            proof {
                assert(a == ba[done]);
                assert(actions@ =~= ba.subrange(done + 1, ba.len() as int));
            }
            msgs.push(Self::action_to_msg(a));
        }
        let mut cmds: Vec<AppCmd> = Vec::new();
        let mut inner_cmds = br.cmds;
        let ghost bc = inner_cmds@;
        proof {
            assert(inner_cmds@ =~= bc.subrange(0, bc.len() as int));
        }
        #[verifier::loop_isolation(false)]
        while inner_cmds.len() > 0
            invariant
                cmds@.len() + inner_cmds@.len() == bc.len(),
                inner_cmds@ == bc.subrange(cmds@.len() as int, bc.len() as int),
                forall|k: int| 0 <= k < cmds@.len() ==> cmds@[k] == AppCmd::DataPlanes(#[trigger] bc[k]),
            decreases inner_cmds@.len(),
        {
            let ghost done = cmds@.len() as int;
            let c = inner_cmds.remove(0);
            proof {
                assert(c == bc[done]);
                assert(inner_cmds@ =~= bc.subrange(done + 1, bc.len() as int));
            }
            cmds.push(AppCmd::DataPlanes(c));
        }
        let r = AppReturn { msgs, actions: Vec::new(), cmds };
        proof {
            assert(r.actions@ =~= Seq::<Action>::empty());
        }
        r
    }

    /// Hides the command bar and returns the focus to the connector list,
    /// as its own confirm and cancel do.
    fn dismiss_launch_bar(&mut self)
        ensures
            *final(self) == (App {
                launch_bar: final(self).launch_bar,
                launch_bar_visible: false,
                focus: AppFocus::ConnectorList,
                ..*old(self)
            }),
            final(self).launch_bar.input@ == Seq::<char>::empty(),
    {
        self.launch_bar.clear();
        self.launch_bar_visible = false;
        self.focus = AppFocus::ConnectorList;
    }
}

impl App {
    /// Processes one top-level message: component messages are forwarded to
    /// their owner (their bubbled actions come back as further top-level
    /// messages), navigation and the help sheet are handled here, and
    /// notifications reach the footer with their expiry timer scheduled.
    #[verifier::rlimit(100)]
    #[verifier::spinoff_prover]
    pub fn update(&mut self, msg: AppMsg) -> (r: AppReturn)
        requires
            old(self).wf(),
            match msg {
                AppMsg::AssetsMsg(m) => msg_ok(m),
                AppMsg::PoliciesMsg(m) => msg_ok(m),
                AppMsg::ContractDefinitions(m) => msg_ok(m),
                AppMsg::ContractNegotiations(m) => msg_ok(m),
                AppMsg::ContractAgreements(m) => msg_ok(m),
                AppMsg::TransferProcesses(m) => msg_ok(m),
                AppMsg::Edrs(m) => msg_ok(m),
                AppMsg::DataPlanes(m) => msg_ok(m),
                _ => true,
            },
        ensures
            final(self).wf(),
            match msg {
                AppMsg::ShowLaunchBar => *final(self) == (App {
                    launch_bar_visible: true,
                    focus: AppFocus::LaunchBar,
                    ..*old(self)
                }) && r.is_empty(),
                AppMsg::HideLaunchBar => {
                    &&& *final(self) == (App {
                        launch_bar: final(self).launch_bar,
                        launch_bar_visible: false,
                        focus: AppFocus::ConnectorList,
                        ..*old(self)
                    })
                    &&& final(self).launch_bar.input@ == Seq::<char>::empty()
                    &&& r.is_empty()
                },
                AppMsg::LaunchBarMsg(m) => match m {
                    LaunchBarMsg::Append(c) => final(self).launch_bar.input@ == old(
                        self,
                    ).launch_bar.input@.push(c) && r.is_empty(),
                    LaunchBarMsg::Backspace => r.is_empty(),
                    LaunchBarMsg::Cancel => !final(self).launch_bar_visible && final(self).focus
                        == AppFocus::ConnectorList && r.is_empty(),
                    LaunchBarMsg::Confirm => {
                        &&& !final(self).launch_bar_visible
                        &&& (crate::components::launch_bar::spec_parse_command(
                            old(self).launch_bar.input@,
                        ) == LaunchCmd::Quit ==> final(self).should_quit)
                        &&& (match crate::components::launch_bar::spec_parse_command(
                            old(self).launch_bar.input@,
                        ) {
                            LaunchCmd::Goto(nav) => final(self).header.menu == nav.spec_to_menu()
                                && browsers_content_unchanged(*old(self), *final(self)),
                            _ => true,
                        })
                    },
                },
                AppMsg::HeaderMsg(hm) => {
                    &&& final(self).header.menu.spec_ordinal() == (match hm {
                        crate::components::header::HeaderMsg::NextTab => (old(
                            self,
                        ).header.menu.spec_ordinal() + 1) % 9,
                        crate::components::header::HeaderMsg::PrevTab => (old(
                            self,
                        ).header.menu.spec_ordinal() + 8) % 9,
                    })
                    &&& r.msgs@ == seq![
                        AppMsg::RoutingMsg(final(self).header.menu.spec_to_nav()),
                    ]
                    &&& r.actions@ == Seq::<Action>::empty()
                    &&& r.cmds@ == Seq::<AppCmd>::empty()
                },
                AppMsg::RoutingMsg(nav) => {
                    &&& browsers_content_unchanged(*old(self), *final(self))
                    &&& final(self).header.menu == nav.spec_to_menu()
                    &&& final(self).focus == (match (
                        nav.spec_to_menu(),
                        old(self).connectors.selected,
                    ) {
                        (Menu::Connectors, _) => AppFocus::ConnectorList,
                        (m, Some(_)) => menu_focus(m),
                        (_, None) => old(self).focus,
                    })
                    &&& r.msgs@ == Seq::<AppMsg>::empty()
                    &&& r.actions@ == Seq::<Action>::empty()
                },
                AppMsg::ChangeSheet => *final(self) == (App {
                    header: final(self).header,
                    ..*old(self)
                }) && final(self).header.menu == old(self).header.menu && r.is_empty(),
                AppMsg::NontificationMsg(NotificationMsg::Show(n)) => {
                    &&& *final(self) == (App { footer: final(self).footer, ..*old(self) })
                    &&& final(self).footer.notification == Some(n)
                    &&& r.msgs@ == Seq::<AppMsg>::empty()
                    &&& r.actions@ == Seq::<Action>::empty()
                    &&& r.cmds@ == seq![AppCmd::ClearNotification { timeout: n.timeout }]
                },
                AppMsg::NontificationMsg(NotificationMsg::Clear) => {
                    &&& *final(self) == (App { footer: final(self).footer, ..*old(self) })
                    &&& final(self).footer.notification is None
                    &&& r.is_empty()
                },
                AppMsg::ConnectorsMsg(m) => {
                    &&& *final(self) == (App { connectors: final(self).connectors, ..*old(self) })
                    &&& crate::components::connectors::connectors_step(
                        old(self).connectors,
                        final(self).connectors,
                        m,
                    )
                    &&& r.is_empty()
                },
                AppMsg::AssetsMsg(m) => {
                    &&& only_assets_changed(*old(self), *final(self))
                    &&& r.actions@ == Seq::<Action>::empty()
                    &&& exists|
                        bm: Seq<crate::components::resources::msg::ResourcesMsg<AssetEntry, AssetEntry>>,
                        ba: Seq<Action>,
                        bc: Seq<ResourceCmd<AssetEntry>>,
                    |
                        #[trigger] crate::components::resources::browser_step(
                            old(self).assets,
                            final(self).assets,
                            m,
                            bm,
                            ba,
                            bc,
                        ) && assets_wrapped(r.msgs@, r.cmds@, bm, ba, bc)
                },
                AppMsg::PoliciesMsg(m) => {
                    &&& only_policies_changed(*old(self), *final(self))
                    &&& r.actions@ == Seq::<Action>::empty()
                    &&& exists|
                        bm: Seq<crate::components::resources::msg::ResourcesMsg<PolicyDefinitionEntry, PolicyDefinitionEntry>>,
                        ba: Seq<Action>,
                        bc: Seq<ResourceCmd<PolicyDefinitionEntry>>,
                    |
                        #[trigger] crate::components::resources::browser_step(
                            old(self).policies,
                            final(self).policies,
                            m,
                            bm,
                            ba,
                            bc,
                        ) && policies_wrapped(r.msgs@, r.cmds@, bm, ba, bc)
                },
                AppMsg::ContractDefinitions(m) => {
                    &&& only_contract_definitions_changed(*old(self), *final(self))
                    &&& r.actions@ == Seq::<Action>::empty()
                    &&& exists|
                        bm: Seq<crate::components::resources::msg::ResourcesMsg<ContractDefinitionEntry, ContractDefinitionEntry>>,
                        ba: Seq<Action>,
                        bc: Seq<ResourceCmd<ContractDefinitionEntry>>,
                    |
                        #[trigger] crate::components::resources::browser_step(
                            old(self).contract_definitions,
                            final(self).contract_definitions,
                            m,
                            bm,
                            ba,
                            bc,
                        ) && contract_definitions_wrapped(r.msgs@, r.cmds@, bm, ba, bc)
                },
                AppMsg::ContractNegotiations(m) => {
                    &&& only_contract_negotiations_changed(*old(self), *final(self))
                    &&& r.actions@ == Seq::<Action>::empty()
                    &&& exists|
                        bm: Seq<crate::components::resources::msg::ResourcesMsg<ContractNegotiationEntry, ContractNegotiationEntry>>,
                        ba: Seq<Action>,
                        bc: Seq<ResourceCmd<ContractNegotiationEntry>>,
                    |
                        #[trigger] crate::components::resources::browser_step(
                            old(self).contract_negotiations,
                            final(self).contract_negotiations,
                            m,
                            bm,
                            ba,
                            bc,
                        ) && contract_negotiations_wrapped(r.msgs@, r.cmds@, bm, ba, bc)
                },
                AppMsg::ContractAgreements(m) => {
                    &&& only_contract_agreements_changed(*old(self), *final(self))
                    &&& r.actions@ == Seq::<Action>::empty()
                    &&& exists|
                        bm: Seq<crate::components::resources::msg::ResourcesMsg<ContractAgreementEntry, ContractAgreementEntry>>,
                        ba: Seq<Action>,
                        bc: Seq<ResourceCmd<ContractAgreementEntry>>,
                    |
                        #[trigger] crate::components::resources::browser_step(
                            old(self).contract_agreements,
                            final(self).contract_agreements,
                            m,
                            bm,
                            ba,
                            bc,
                        ) && contract_agreements_wrapped(r.msgs@, r.cmds@, bm, ba, bc)
                },
                AppMsg::TransferProcesses(m) => {
                    &&& only_transfer_processes_changed(*old(self), *final(self))
                    &&& r.actions@ == Seq::<Action>::empty()
                    &&& exists|
                        bm: Seq<crate::components::resources::msg::ResourcesMsg<TransferProcessEntry, TransferProcessEntry>>,
                        ba: Seq<Action>,
                        bc: Seq<ResourceCmd<TransferProcessEntry>>,
                    |
                        #[trigger] crate::components::resources::browser_step(
                            old(self).transfer_processes,
                            final(self).transfer_processes,
                            m,
                            bm,
                            ba,
                            bc,
                        ) && transfer_processes_wrapped(r.msgs@, r.cmds@, bm, ba, bc)
                },
                AppMsg::Edrs(m) => {
                    &&& only_edrs_changed(*old(self), *final(self))
                    &&& r.actions@ == Seq::<Action>::empty()
                    &&& exists|
                        bm: Seq<crate::components::resources::msg::ResourcesMsg<EdrMetadataEntry, EdrEntry>>,
                        ba: Seq<Action>,
                        bc: Seq<ResourceCmd<EdrMetadataEntry>>,
                    |
                        #[trigger] crate::components::resources::browser_step(
                            old(self).edrs,
                            final(self).edrs,
                            m,
                            bm,
                            ba,
                            bc,
                        ) && edrs_wrapped(r.msgs@, r.cmds@, bm, ba, bc)
                },
                AppMsg::DataPlanes(m) => {
                    &&& only_dataplanes_changed(*old(self), *final(self))
                    &&& r.actions@ == Seq::<Action>::empty()
                    &&& exists|
                        bm: Seq<crate::components::resources::msg::ResourcesMsg<DataPlaneEntry, DataPlaneEntry>>,
                        ba: Seq<Action>,
                        bc: Seq<ResourceCmd<DataPlaneEntry>>,
                    |
                        #[trigger] crate::components::resources::browser_step(
                            old(self).dataplanes,
                            final(self).dataplanes,
                            m,
                            bm,
                            ba,
                            bc,
                        ) && dataplanes_wrapped(r.msgs@, r.cmds@, bm, ba, bc)
                },
            },
    {
        match msg {
            AppMsg::ConnectorsMsg(m) => {
                self.connectors.update(m);
                ComponentReturn::empty()
            },
            AppMsg::ShowLaunchBar => {
                self.launch_bar_visible = true;
                self.focus = AppFocus::LaunchBar;
                ComponentReturn::empty()
            },
            AppMsg::HideLaunchBar => {
                self.dismiss_launch_bar();
                ComponentReturn::empty()
            },
            AppMsg::LaunchBarMsg(m) => {
                match m {
                    LaunchBarMsg::Confirm => {
                        let cmd = self.launch_bar.parse_command();
                        match cmd {
                            LaunchCmd::Quit => {
                                self.should_quit = true;
                                self.dismiss_launch_bar();
                                ComponentReturn::empty()
                            },
                            LaunchCmd::Goto(nav) => self.handle_routing(nav),
                            LaunchCmd::Unknown => {
                                self.dismiss_launch_bar();
                                ComponentReturn::empty()
                            },
                        }
                    },
                    LaunchBarMsg::Cancel => {
                        self.dismiss_launch_bar();
                        ComponentReturn::empty()
                    },
                    _ => {
                        self.launch_bar.update(m);
                        ComponentReturn::empty()
                    },
                }
            },
            AppMsg::AssetsMsg(m) => {
                let br = self.assets.update(m);
                Self::wrap_assets_return(br)
            },
            AppMsg::PoliciesMsg(m) => {
                let br = self.policies.update(m);
                Self::wrap_policies_return(br)
            },
            AppMsg::ContractDefinitions(m) => {
                let br = self.contract_definitions.update(m);
                Self::wrap_contract_definitions_return(br)
            },
            AppMsg::ContractNegotiations(m) => {
                let br = self.contract_negotiations.update(m);
                Self::wrap_contract_negotiations_return(br)
            },
            AppMsg::ContractAgreements(m) => {
                let br = self.contract_agreements.update(m);
                Self::wrap_contract_agreements_return(br)
            },
            AppMsg::TransferProcesses(m) => {
                let br = self.transfer_processes.update(m);
                Self::wrap_transfer_processes_return(br)
            },
            AppMsg::Edrs(m) => {
                let br = self.edrs.update(m);
                Self::wrap_edrs_return(br)
            },
            AppMsg::DataPlanes(m) => {
                let br = self.dataplanes.update(m);
                Self::wrap_dataplanes_return(br)
            },
            AppMsg::HeaderMsg(hm) => {
                let hr = self.header.update(hm);
                let nav = self.header.selected_menu().to_nav();
                ComponentReturn::msg(AppMsg::RoutingMsg(nav))
            },
            AppMsg::RoutingMsg(nav) => self.handle_routing(nav),
            AppMsg::ChangeSheet => self.change_sheet(),
            AppMsg::NontificationMsg(NotificationMsg::Show(noty)) => self.show_notification(noty),
            AppMsg::NontificationMsg(NotificationMsg::Clear) => self.clear_notification(),
        }
    }

    /// The focused component's messages for a key press, wrapped in the
    /// top-level message type in order.
    fn focused_msgs(&self, key: KeyEvent) -> (msgs: Vec<AppMsg>)
        requires
            self.wf(),
        ensures
            forall|k: int|
                0 <= k < msgs@.len() ==> msg_focus(#[trigger] msgs@[k]) == Some(self.focus),
            match self.focus {
                AppFocus::ConnectorList => exists|inner: Seq<ConnectorsMsg>|
                    #[trigger] crate::components::connectors::connectors_key_msgs(
                        self.connectors,
                        key,
                        inner,
                    ) && wraps_connectors(msgs@, inner),
                AppFocus::LaunchBar => wraps_launch_bar(
                    msgs@,
                    crate::components::launch_bar::launch_bar_key_msgs(key),
                ),
                AppFocus::Assets => exists|inner: Seq<
                    crate::components::resources::msg::ResourcesMsg<AssetEntry, AssetEntry>,
                >|
                    #[trigger] crate::components::resources::browser_key_msgs(
                        self.assets,
                        key,
                        inner,
                    ) && wraps_assets(msgs@, inner),
                AppFocus::Policies => exists|inner: Seq<
                    crate::components::resources::msg::ResourcesMsg<PolicyDefinitionEntry, PolicyDefinitionEntry>,
                >|
                    #[trigger] crate::components::resources::browser_key_msgs(
                        self.policies,
                        key,
                        inner,
                    ) && wraps_policies(msgs@, inner),
                AppFocus::ContractDefinitions => exists|inner: Seq<
                    crate::components::resources::msg::ResourcesMsg<ContractDefinitionEntry, ContractDefinitionEntry>,
                >|
                    #[trigger] crate::components::resources::browser_key_msgs(
                        self.contract_definitions,
                        key,
                        inner,
                    ) && wraps_contract_definitions(msgs@, inner),
                AppFocus::ContractNegotiations => exists|inner: Seq<
                    crate::components::resources::msg::ResourcesMsg<ContractNegotiationEntry, ContractNegotiationEntry>,
                >|
                    #[trigger] crate::components::resources::browser_key_msgs(
                        self.contract_negotiations,
                        key,
                        inner,
                    ) && wraps_contract_negotiations(msgs@, inner),
                AppFocus::ContractAgreements => exists|inner: Seq<
                    crate::components::resources::msg::ResourcesMsg<ContractAgreementEntry, ContractAgreementEntry>,
                >|
                    #[trigger] crate::components::resources::browser_key_msgs(
                        self.contract_agreements,
                        key,
                        inner,
                    ) && wraps_contract_agreements(msgs@, inner),
                AppFocus::TransferProcesses => exists|inner: Seq<
                    crate::components::resources::msg::ResourcesMsg<TransferProcessEntry, TransferProcessEntry>,
                >|
                    #[trigger] crate::components::resources::browser_key_msgs(
                        self.transfer_processes,
                        key,
                        inner,
                    ) && wraps_transfer_processes(msgs@, inner),
                AppFocus::Edrs => exists|inner: Seq<
                    crate::components::resources::msg::ResourcesMsg<EdrMetadataEntry, EdrEntry>,
                >|
                    #[trigger] crate::components::resources::browser_key_msgs(
                        self.edrs,
                        key,
                        inner,
                    ) && wraps_edrs(msgs@, inner),
                AppFocus::DataPlanes => exists|inner: Seq<
                    crate::components::resources::msg::ResourcesMsg<DataPlaneEntry, DataPlaneEntry>,
                >|
                    #[trigger] crate::components::resources::browser_key_msgs(
                        self.dataplanes,
                        key,
                        inner,
                    ) && wraps_dataplanes(msgs@, inner),
            },
    {
        let mut msgs: Vec<AppMsg> = Vec::new();
        proof {
            assert(msgs@ =~= Seq::<AppMsg>::empty());
        }
        match self.focus {
            AppFocus::ConnectorList => {
                let mut inner = self.connectors.handle_event(ComponentEvent::Key(key));
                let ghost orig = inner@;
                proof {
                    assert(inner@ =~= orig.subrange(0, orig.len() as int));
                }
                #[verifier::loop_isolation(false)]
                while inner.len() > 0
                    invariant
                        msgs@.len() + inner@.len() == orig.len(),
                        inner@ == orig.subrange(msgs@.len() as int, orig.len() as int),
                        forall|k: int|
                            0 <= k < msgs@.len() ==> #[trigger] msgs@[k] == AppMsg::ConnectorsMsg(
                                orig[k],
                            ),
                    decreases inner@.len(),
                {
                    let ghost done = msgs@.len() as int;
                    let m = inner.remove(0);
                    proof {
                        assert(m == orig[done]);
                        assert(inner@ =~= orig.subrange(done + 1, orig.len() as int));
                    }
                    msgs.push(AppMsg::ConnectorsMsg(m));
                }
                proof {
                    assert(wraps_connectors(msgs@, orig));
                }
            },
            AppFocus::LaunchBar => {
                let mut inner = self.launch_bar.handle_event(ComponentEvent::Key(key));
                let ghost orig = inner@;
                proof {
                    assert(inner@ =~= orig.subrange(0, orig.len() as int));
                }
                #[verifier::loop_isolation(false)]
                while inner.len() > 0
                    invariant
                        msgs@.len() + inner@.len() == orig.len(),
                        inner@ == orig.subrange(msgs@.len() as int, orig.len() as int),
                        forall|k: int|
                            0 <= k < msgs@.len() ==> #[trigger] msgs@[k] == AppMsg::LaunchBarMsg(
                                orig[k],
                            ),
                    decreases inner@.len(),
                {
                    let ghost done = msgs@.len() as int;
                    let m = inner.remove(0);
                    proof {
                        assert(m == orig[done]);
                        assert(inner@ =~= orig.subrange(done + 1, orig.len() as int));
                    }
                    msgs.push(AppMsg::LaunchBarMsg(m));
                }
                proof {
                    assert(wraps_launch_bar(msgs@, orig));
                }
            },
            AppFocus::Assets => {
                let mut inner = self.assets.handle_event(ComponentEvent::Key(key));
                let ghost orig = inner@;
                proof {
                    assert(inner@ =~= orig.subrange(0, orig.len() as int));
                }
                #[verifier::loop_isolation(false)]
                while inner.len() > 0
                    invariant
                        msgs@.len() + inner@.len() == orig.len(),
                        inner@ == orig.subrange(msgs@.len() as int, orig.len() as int),
                        forall|k: int|
                            0 <= k < msgs@.len() ==> #[trigger] msgs@[k] == AppMsg::AssetsMsg(
                                orig[k],
                            ),
                    decreases inner@.len(),
                {
                    let ghost done = msgs@.len() as int;
                    let m = inner.remove(0);
                    proof {
                        assert(m == orig[done]);
                        assert(inner@ =~= orig.subrange(done + 1, orig.len() as int));
                    }
                    msgs.push(AppMsg::AssetsMsg(m));
                }
                proof {
                    assert(wraps_assets(msgs@, orig));
                }
            },
            AppFocus::Policies => {
                let mut inner = self.policies.handle_event(ComponentEvent::Key(key));
                let ghost orig = inner@;
                proof {
                    assert(inner@ =~= orig.subrange(0, orig.len() as int));
                }
                #[verifier::loop_isolation(false)]
                while inner.len() > 0
                    invariant
                        msgs@.len() + inner@.len() == orig.len(),
                        inner@ == orig.subrange(msgs@.len() as int, orig.len() as int),
                        forall|k: int|
                            0 <= k < msgs@.len() ==> #[trigger] msgs@[k] == AppMsg::PoliciesMsg(
                                orig[k],
                            ),
                    decreases inner@.len(),
                {
                    let ghost done = msgs@.len() as int;
                    let m = inner.remove(0);
                    proof {
                        assert(m == orig[done]);
                        assert(inner@ =~= orig.subrange(done + 1, orig.len() as int));
                    }
                    msgs.push(AppMsg::PoliciesMsg(m));
                }
                proof {
                    assert(wraps_policies(msgs@, orig));
                }
            },
            AppFocus::ContractDefinitions => {
                let mut inner = self.contract_definitions.handle_event(ComponentEvent::Key(key));
                let ghost orig = inner@;
                proof {
                    assert(inner@ =~= orig.subrange(0, orig.len() as int));
                }
                #[verifier::loop_isolation(false)]
                while inner.len() > 0
                    invariant
                        msgs@.len() + inner@.len() == orig.len(),
                        inner@ == orig.subrange(msgs@.len() as int, orig.len() as int),
                        forall|k: int|
                            0 <= k < msgs@.len() ==> #[trigger] msgs@[k] == AppMsg::ContractDefinitions(
                                orig[k],
                            ),
                    decreases inner@.len(),
                {
                    let ghost done = msgs@.len() as int;
                    let m = inner.remove(0);
                    proof {
                        assert(m == orig[done]);
                        assert(inner@ =~= orig.subrange(done + 1, orig.len() as int));
                    }
                    msgs.push(AppMsg::ContractDefinitions(m));
                }
                proof {
                    assert(wraps_contract_definitions(msgs@, orig));
                }
            },
            AppFocus::ContractNegotiations => {
                let mut inner = self.contract_negotiations.handle_event(ComponentEvent::Key(key));
                let ghost orig = inner@;
                proof {
                    assert(inner@ =~= orig.subrange(0, orig.len() as int));
                }
                #[verifier::loop_isolation(false)]
                while inner.len() > 0
                    invariant
                        msgs@.len() + inner@.len() == orig.len(),
                        inner@ == orig.subrange(msgs@.len() as int, orig.len() as int),
                        forall|k: int|
                            0 <= k < msgs@.len() ==> #[trigger] msgs@[k] == AppMsg::ContractNegotiations(
                                orig[k],
                            ),
                    decreases inner@.len(),
                {
                    let ghost done = msgs@.len() as int;
                    let m = inner.remove(0);
                    proof {
                        assert(m == orig[done]);
                        assert(inner@ =~= orig.subrange(done + 1, orig.len() as int));
                    }
                    msgs.push(AppMsg::ContractNegotiations(m));
                }
                proof {
                    assert(wraps_contract_negotiations(msgs@, orig));
                }
            },
            AppFocus::ContractAgreements => {
                let mut inner = self.contract_agreements.handle_event(ComponentEvent::Key(key));
                let ghost orig = inner@;
                proof {
                    assert(inner@ =~= orig.subrange(0, orig.len() as int));
                }
                #[verifier::loop_isolation(false)]
                while inner.len() > 0
                    invariant
                        msgs@.len() + inner@.len() == orig.len(),
                        inner@ == orig.subrange(msgs@.len() as int, orig.len() as int),
                        forall|k: int|
                            0 <= k < msgs@.len() ==> #[trigger] msgs@[k] == AppMsg::ContractAgreements(
                                orig[k],
                            ),
                    decreases inner@.len(),
                {
                    let ghost done = msgs@.len() as int;
                    let m = inner.remove(0);
                    proof {
                        assert(m == orig[done]);
                        assert(inner@ =~= orig.subrange(done + 1, orig.len() as int));
                    }
                    msgs.push(AppMsg::ContractAgreements(m));
                }
                proof {
                    assert(wraps_contract_agreements(msgs@, orig));
                }
            },
            AppFocus::TransferProcesses => {
                let mut inner = self.transfer_processes.handle_event(ComponentEvent::Key(key));
                let ghost orig = inner@;
                proof {
                    assert(inner@ =~= orig.subrange(0, orig.len() as int));
                }
                #[verifier::loop_isolation(false)]
                while inner.len() > 0
                    invariant
                        msgs@.len() + inner@.len() == orig.len(),
                        inner@ == orig.subrange(msgs@.len() as int, orig.len() as int),
                        forall|k: int|
                            0 <= k < msgs@.len() ==> #[trigger] msgs@[k] == AppMsg::TransferProcesses(
                                orig[k],
                            ),
                    decreases inner@.len(),
                {
                    let ghost done = msgs@.len() as int;
                    let m = inner.remove(0);
                    proof {
                        assert(m == orig[done]);
                        assert(inner@ =~= orig.subrange(done + 1, orig.len() as int));
                    }
                    msgs.push(AppMsg::TransferProcesses(m));
                }
                proof {
                    assert(wraps_transfer_processes(msgs@, orig));
                }
            },
            AppFocus::Edrs => {
                let mut inner = self.edrs.handle_event(ComponentEvent::Key(key));
                let ghost orig = inner@;
                proof {
                    assert(inner@ =~= orig.subrange(0, orig.len() as int));
                }
                #[verifier::loop_isolation(false)]
                while inner.len() > 0
                    invariant
                        msgs@.len() + inner@.len() == orig.len(),
                        inner@ == orig.subrange(msgs@.len() as int, orig.len() as int),
                        forall|k: int|
                            0 <= k < msgs@.len() ==> #[trigger] msgs@[k] == AppMsg::Edrs(
                                orig[k],
                            ),
                    decreases inner@.len(),
                {
                    let ghost done = msgs@.len() as int;
                    let m = inner.remove(0);
                    proof {
                        assert(m == orig[done]);
                        assert(inner@ =~= orig.subrange(done + 1, orig.len() as int));
                    }
                    msgs.push(AppMsg::Edrs(m));
                }
                proof {
                    assert(wraps_edrs(msgs@, orig));
                }
            },
            AppFocus::DataPlanes => {
                let mut inner = self.dataplanes.handle_event(ComponentEvent::Key(key));
                let ghost orig = inner@;
                proof {
                    assert(inner@ =~= orig.subrange(0, orig.len() as int));
                }
                #[verifier::loop_isolation(false)]
                while inner.len() > 0
                    invariant
                        msgs@.len() + inner@.len() == orig.len(),
                        inner@ == orig.subrange(msgs@.len() as int, orig.len() as int),
                        forall|k: int|
                            0 <= k < msgs@.len() ==> #[trigger] msgs@[k] == AppMsg::DataPlanes(
                                orig[k],
                            ),
                    decreases inner@.len(),
                {
                    let ghost done = msgs@.len() as int;
                    let m = inner.remove(0);
                    proof {
                        assert(m == orig[done]);
                        assert(inner@ =~= orig.subrange(done + 1, orig.len() as int));
                    }
                    msgs.push(AppMsg::DataPlanes(m));
                }
                proof {
                    assert(wraps_dataplanes(msgs@, orig));
                }
            },
        }
        msgs
    }

    /// Dispatches a raw key press, as [`app_key_dispatch`] states: it goes
    /// first to the focused component, whose messages come back wrapped and
    /// unchanged; a press the focused component makes nothing of falls
    /// through to the always-active header, and past that only the
    /// command-bar key means anything.
    pub fn handle_event(&self, evt: ComponentEvent) -> (msgs: Vec<AppMsg>)
        requires
            self.wf(),
        ensures
            forall|k: int|
                0 <= k < msgs@.len() ==> (msg_focus(#[trigger] msgs@[k]) == Some(self.focus)
                    || msgs@[k] is HeaderMsg || msgs@[k] == AppMsg::ShowLaunchBar),
            match evt {
                ComponentEvent::Key(key) => app_key_dispatch(*self, key, msgs@),
            },
    {
        let ComponentEvent::Key(key) = evt;
        let msgs = self.focused_msgs(key);
        if msgs.len() > 0 {
            return msgs;
        }
        let hdr = self.header.handle_key(key);
        if hdr.len() > 0 {
            let mut hdr = hdr;
            let ghost orig = hdr@;
            let mut out: Vec<AppMsg> = Vec::new();
            proof {
                assert(hdr@ =~= orig.subrange(0, orig.len() as int));
            }
            #[verifier::loop_isolation(false)]
            while hdr.len() > 0
                invariant
                    out@.len() + hdr@.len() == orig.len(),
                    hdr@ == orig.subrange(out@.len() as int, orig.len() as int),
                    forall|k: int|
                        0 <= k < out@.len() ==> #[trigger] out@[k] == AppMsg::HeaderMsg(orig[k]),
                decreases hdr@.len(),
            {
                let ghost done = out@.len() as int;
                let m = hdr.remove(0);
                proof {
                    assert(m == orig[done]);
                    assert(hdr@ =~= orig.subrange(done + 1, orig.len() as int));
                }
                out.push(AppMsg::HeaderMsg(m));
            }
            proof {
                assert(wraps_header(out@, orig));
            }
            return out;
        }
        Self::handle_key(key)
    }

    /// The global keys: the command-bar character summons the command bar.
    fn handle_key(key: KeyEvent) -> (msgs: Vec<AppMsg>)
        ensures
            msgs@ == (if key.code == KeyCode::Char(':') {
                seq![AppMsg::ShowLaunchBar]
            } else {
                Seq::<AppMsg>::empty()
            }),
    {
        let mut msgs: Vec<AppMsg> = Vec::new();
        proof {
            assert(msgs@ =~= Seq::<AppMsg>::empty());
        }
        match key.code {
            KeyCode::Char(c) => {
                if c == ':' {
                    msgs.push(AppMsg::ShowLaunchBar);
                    proof {
                        assert(msgs@ =~= seq![AppMsg::ShowLaunchBar]);
                    }
                }
            },
            _ => {},
        }
        msgs
    }
}

/// Exactly one top-level component is focused at any time: the focus is a
/// single value of the focus type, and a component message determines the
/// one focus it may be dispatched under, so input routed to a non-focused
/// component never arises from `handle_event`.
pub proof fn lemma_single_focus(m: AppMsg, f1: AppFocus, f2: AppFocus)
    requires
        msg_focus(m) == Some(f1),
        msg_focus(m) == Some(f2),
    ensures
        f1 == f2,
{
}

} // verus!


