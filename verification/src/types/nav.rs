//! The top-level menu and the navigation requests that move between its
//! entries.

use vstd::prelude::*;

verus! {

/// The number of menu entries.
pub const MENU_COUNT: usize = 9;

/// One entry of the top-level menu: the connector list and the eight
/// resource categories.
#[derive(Clone, Copy, PartialEq, Eq, Structural, Debug)]
pub enum Menu {
    Connectors,
    Assets,
    Policies,
    ContractDefinitions,
    ContractNegotiations,
    ContractAgreements,
    TransferProcesses,
    Edrs,
    DataPlanes,
}

/// A request to navigate to a menu entry, bubbled from a component to the
/// top-level owner.
#[derive(Clone, Copy, PartialEq, Eq, Structural, Debug)]
pub enum Nav {
    ConnectorsList,
    AssetsList,
    PoliciesList,
    ContractDefinitionsList,
    ContractNegotiationsList,
    ContractAgreementsList,
    TransferProcessesList,
    EdrsList,
    DataPlanesList,
}

impl Menu {
    /// The position of the entry in the menu bar.
    pub open spec fn spec_ordinal(self) -> int {
        match self {
            Menu::Connectors => 0,
            Menu::Assets => 1,
            Menu::Policies => 2,
            Menu::ContractDefinitions => 3,
            Menu::ContractNegotiations => 4,
            Menu::ContractAgreements => 5,
            Menu::TransferProcesses => 6,
            Menu::Edrs => 7,
            Menu::DataPlanes => 8,
        }
    }

    /// The entry at a given position, if the position is in range.
    pub open spec fn spec_from_ordinal(n: int) -> Option<Menu> {
        if n == 0 {
            Some(Menu::Connectors)
        } else if n == 1 {
            Some(Menu::Assets)
        } else if n == 2 {
            Some(Menu::Policies)
        } else if n == 3 {
            Some(Menu::ContractDefinitions)
        } else if n == 4 {
            Some(Menu::ContractNegotiations)
        } else if n == 5 {
            Some(Menu::ContractAgreements)
        } else if n == 6 {
            Some(Menu::TransferProcesses)
        } else if n == 7 {
            Some(Menu::Edrs)
        } else if n == 8 {
            Some(Menu::DataPlanes)
        } else {
            None
        }
    }

    pub fn ordinal(self) -> (n: usize)
        ensures
            n == self.spec_ordinal(),
            n < MENU_COUNT,
    {
        match self {
            Menu::Connectors => 0,
            Menu::Assets => 1,
            Menu::Policies => 2,
            Menu::ContractDefinitions => 3,
            Menu::ContractNegotiations => 4,
            Menu::ContractAgreements => 5,
            Menu::TransferProcesses => 6,
            Menu::Edrs => 7,
            Menu::DataPlanes => 8,
        }
    }

    pub fn from_ordinal(n: usize) -> (m: Option<Menu>)
        ensures
            m == Menu::spec_from_ordinal(n as int),
    {
        match n {
            0 => Some(Menu::Connectors),
            1 => Some(Menu::Assets),
            2 => Some(Menu::Policies),
            3 => Some(Menu::ContractDefinitions),
            4 => Some(Menu::ContractNegotiations),
            5 => Some(Menu::ContractAgreements),
            6 => Some(Menu::TransferProcesses),
            7 => Some(Menu::Edrs),
            8 => Some(Menu::DataPlanes),
            _ => None,
        }
    }

    /// The navigation request that selects this entry.
    pub open spec fn spec_to_nav(self) -> Nav {
        match self {
            Menu::Connectors => Nav::ConnectorsList,
            Menu::Assets => Nav::AssetsList,
            Menu::Policies => Nav::PoliciesList,
            Menu::ContractDefinitions => Nav::ContractDefinitionsList,
            Menu::ContractNegotiations => Nav::ContractNegotiationsList,
            Menu::ContractAgreements => Nav::ContractAgreementsList,
            Menu::TransferProcesses => Nav::TransferProcessesList,
            Menu::Edrs => Nav::EdrsList,
            Menu::DataPlanes => Nav::DataPlanesList,
        }
    }

    #[verifier::when_used_as_spec(spec_to_nav)]
    pub fn to_nav(self) -> (n: Nav)
        ensures
            n == self.spec_to_nav(),
    {
        match self {
            Menu::Connectors => Nav::ConnectorsList,
            Menu::Assets => Nav::AssetsList,
            Menu::Policies => Nav::PoliciesList,
            Menu::ContractDefinitions => Nav::ContractDefinitionsList,
            Menu::ContractNegotiations => Nav::ContractNegotiationsList,
            Menu::ContractAgreements => Nav::ContractAgreementsList,
            Menu::TransferProcesses => Nav::TransferProcessesList,
            Menu::Edrs => Nav::EdrsList,
            Menu::DataPlanes => Nav::DataPlanesList,
        }
    }
}

impl Default for Menu {
    fn default() -> (m: Menu)
        ensures
            m == Menu::Connectors,
    {
        Menu::Connectors
    }
}

impl Nav {
    /// The menu entry a navigation request selects.
    pub open spec fn spec_to_menu(self) -> Menu {
        match self {
            Nav::ConnectorsList => Menu::Connectors,
            Nav::AssetsList => Menu::Assets,
            Nav::PoliciesList => Menu::Policies,
            Nav::ContractDefinitionsList => Menu::ContractDefinitions,
            Nav::ContractNegotiationsList => Menu::ContractNegotiations,
            Nav::ContractAgreementsList => Menu::ContractAgreements,
            Nav::TransferProcessesList => Menu::TransferProcesses,
            Nav::EdrsList => Menu::Edrs,
            Nav::DataPlanesList => Menu::DataPlanes,
        }
    }

    #[verifier::when_used_as_spec(spec_to_menu)]
    pub fn to_menu(self) -> (m: Menu)
        ensures
            m == self.spec_to_menu(),
    {
        match self {
            Nav::ConnectorsList => Menu::Connectors,
            Nav::AssetsList => Menu::Assets,
            Nav::PoliciesList => Menu::Policies,
            Nav::ContractDefinitionsList => Menu::ContractDefinitions,
            Nav::ContractNegotiationsList => Menu::ContractNegotiations,
            Nav::ContractAgreementsList => Menu::ContractAgreements,
            Nav::TransferProcessesList => Menu::TransferProcesses,
            Nav::EdrsList => Menu::Edrs,
            Nav::DataPlanesList => Menu::DataPlanes,
        }
    }
}

/// Every menu entry sits at its own position, and positions convert back to
/// the entry: the menu bar and the ordinal arithmetic of tab cycling agree.
pub proof fn lemma_menu_ordinal_roundtrip(m: Menu)
    ensures
        0 <= m.spec_ordinal() < MENU_COUNT,
        Menu::spec_from_ordinal(m.spec_ordinal()) == Some(m),
        m.spec_to_nav().spec_to_menu() == m,
{
}

} // verus!
