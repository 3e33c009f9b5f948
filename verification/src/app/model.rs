//! Which top-level component owns raw input.

use vstd::prelude::*;

use crate::types::nav::Menu;

verus! {

/// The focus of the interface: exactly one top-level component receives raw
/// input at any time.
#[derive(Clone, Copy, PartialEq, Eq, Structural, Debug)]
pub enum AppFocus {
    ConnectorList,
    LaunchBar,
    Assets,
    Policies,
    ContractDefinitions,
    ContractNegotiations,
    ContractAgreements,
    TransferProcesses,
    Edrs,
    DataPlanes,
}

impl Default for AppFocus {
    fn default() -> (f: AppFocus)
        ensures
            f == AppFocus::ConnectorList,
    {
        AppFocus::ConnectorList
    }
}

/// The focus a menu entry's browser owns.
pub open spec fn menu_focus(m: Menu) -> AppFocus {
    match m {
        Menu::Connectors => AppFocus::ConnectorList,
        Menu::Assets => AppFocus::Assets,
        Menu::Policies => AppFocus::Policies,
        Menu::ContractDefinitions => AppFocus::ContractDefinitions,
        Menu::ContractNegotiations => AppFocus::ContractNegotiations,
        Menu::ContractAgreements => AppFocus::ContractAgreements,
        Menu::TransferProcesses => AppFocus::TransferProcesses,
        Menu::Edrs => AppFocus::Edrs,
        Menu::DataPlanes => AppFocus::DataPlanes,
    }
}

} // verus!
