//! The top-level message type: one variant per owned component, plus the
//! cross-cutting requests (navigation, help-sheet refresh, notifications,
//! the command bar).

use vstd::prelude::*;

use crate::components::agreements::ContractAgreementsMsg;
use crate::components::connectors::ConnectorsMsg;
use crate::components::dataplanes::DataPlaneMsg;
use crate::components::edrs::EdrsMsg;
use crate::components::entries::{
    AssetsMsg, ContractDefinitionsMsg, ContractNegotiationMsg, PoliciesMsg, TransferProcessMsg,
};
use crate::components::header::HeaderMsg;
use crate::components::launch_bar::LaunchBarMsg;
use crate::components::NotificationMsg;
use crate::types::nav::Nav;

verus! {

/// Everything the top-level owner processes.
#[derive(Debug)]
pub enum AppMsg {
    ConnectorsMsg(ConnectorsMsg),
    ShowLaunchBar,
    HideLaunchBar,
    LaunchBarMsg(LaunchBarMsg),
    AssetsMsg(AssetsMsg),
    PoliciesMsg(PoliciesMsg),
    ContractDefinitions(ContractDefinitionsMsg),
    ContractNegotiations(ContractNegotiationMsg),
    ContractAgreements(ContractAgreementsMsg),
    TransferProcesses(TransferProcessMsg),
    Edrs(EdrsMsg),
    DataPlanes(DataPlaneMsg),
    HeaderMsg(HeaderMsg),
    RoutingMsg(Nav),
    NontificationMsg(NotificationMsg),
    ChangeSheet,
}

} // verus!
