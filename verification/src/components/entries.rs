//! The remaining resource categories: assets, policy definitions, contract
//! definitions, contract negotiations and transfer processes.  Their
//! business content is out of the runtime's scope; each row is an
//! identifier plus its record rendered as text by the host, and list and
//! detail projections coincide.

use vstd::prelude::*;

use crate::components::resources::msg::ResourcesMsg;
use crate::components::resources::{DrawableResource, Field, FieldValue, ResourcesComponent};

verus! {

/// One asset row.
#[derive(Debug)]
pub struct AssetEntry {
    pub id: String,
    pub record: String,
}

/// One policy-definition row.
#[derive(Debug)]
pub struct PolicyDefinitionEntry {
    pub id: String,
    pub record: String,
}

/// One contract-definition row.
#[derive(Debug)]
pub struct ContractDefinitionEntry {
    pub id: String,
    pub record: String,
}

/// One contract-negotiation row.
#[derive(Debug)]
pub struct ContractNegotiationEntry {
    pub id: String,
    pub record: String,
}

/// One transfer-process row.
#[derive(Debug)]
pub struct TransferProcessEntry {
    pub id: String,
    pub record: String,
}

pub type AssetsMsg = ResourcesMsg<AssetEntry, AssetEntry>;

pub type AssetsComponent = ResourcesComponent<AssetEntry, AssetEntry>;

pub type PoliciesMsg = ResourcesMsg<PolicyDefinitionEntry, PolicyDefinitionEntry>;

pub type PolicyDefinitionsComponent = ResourcesComponent<
    PolicyDefinitionEntry,
    PolicyDefinitionEntry,
>;

pub type ContractDefinitionsMsg = ResourcesMsg<ContractDefinitionEntry, ContractDefinitionEntry>;

pub type ContractDefinitionsComponent = ResourcesComponent<
    ContractDefinitionEntry,
    ContractDefinitionEntry,
>;

pub type ContractNegotiationMsg = ResourcesMsg<ContractNegotiationEntry, ContractNegotiationEntry>;

pub type ContractNegotiationsComponent = ResourcesComponent<
    ContractNegotiationEntry,
    ContractNegotiationEntry,
>;

pub type TransferProcessMsg = ResourcesMsg<TransferProcessEntry, TransferProcessEntry>;

pub type TransferProcessesComponent = ResourcesComponent<
    TransferProcessEntry,
    TransferProcessEntry,
>;

impl AssetEntry {
    pub fn new(id: String, record: String) -> (e: AssetEntry)
        ensures
            e == (AssetEntry { id, record }),
    {
        AssetEntry { id, record }
    }
}

impl Clone for AssetEntry {
    fn clone(&self) -> (r: Self)
        ensures
            r == *self,
    {
        AssetEntry { id: self.id.clone(), record: self.record.clone() }
    }
}

impl DrawableResource for AssetEntry {
    fn id(&self) -> &str {
        self.id.as_str()
    }

    fn title() -> &'static str {
        "Assets"
    }

    fn fields(&self) -> Vec<Field> {
        entry_fields(&self.id, &self.record)
    }
}

impl PolicyDefinitionEntry {
    pub fn new(id: String, record: String) -> (e: PolicyDefinitionEntry)
        ensures
            e == (PolicyDefinitionEntry { id, record }),
    {
        PolicyDefinitionEntry { id, record }
    }
}

impl Clone for PolicyDefinitionEntry {
    fn clone(&self) -> (r: Self)
        ensures
            r == *self,
    {
        PolicyDefinitionEntry { id: self.id.clone(), record: self.record.clone() }
    }
}

impl DrawableResource for PolicyDefinitionEntry {
    fn id(&self) -> &str {
        self.id.as_str()
    }

    fn title() -> &'static str {
        "Policies"
    }

    fn fields(&self) -> Vec<Field> {
        entry_fields(&self.id, &self.record)
    }
}

impl ContractDefinitionEntry {
    pub fn new(id: String, record: String) -> (e: ContractDefinitionEntry)
        ensures
            e == (ContractDefinitionEntry { id, record }),
    {
        ContractDefinitionEntry { id, record }
    }
}

impl Clone for ContractDefinitionEntry {
    fn clone(&self) -> (r: Self)
        ensures
            r == *self,
    {
        ContractDefinitionEntry { id: self.id.clone(), record: self.record.clone() }
    }
}

impl DrawableResource for ContractDefinitionEntry {
    fn id(&self) -> &str {
        self.id.as_str()
    }

    fn title() -> &'static str {
        "Contract Definitions"
    }

    fn fields(&self) -> Vec<Field> {
        entry_fields(&self.id, &self.record)
    }
}

impl ContractNegotiationEntry {
    pub fn new(id: String, record: String) -> (e: ContractNegotiationEntry)
        ensures
            e == (ContractNegotiationEntry { id, record }),
    {
        ContractNegotiationEntry { id, record }
    }
}

impl Clone for ContractNegotiationEntry {
    fn clone(&self) -> (r: Self)
        ensures
            r == *self,
    {
        ContractNegotiationEntry { id: self.id.clone(), record: self.record.clone() }
    }
}

impl DrawableResource for ContractNegotiationEntry {
    fn id(&self) -> &str {
        self.id.as_str()
    }

    fn title() -> &'static str {
        "Contract Negotiations"
    }

    fn fields(&self) -> Vec<Field> {
        entry_fields(&self.id, &self.record)
    }
}

impl TransferProcessEntry {
    pub fn new(id: String, record: String) -> (e: TransferProcessEntry)
        ensures
            e == (TransferProcessEntry { id, record }),
    {
        TransferProcessEntry { id, record }
    }
}

impl Clone for TransferProcessEntry {
    fn clone(&self) -> (r: Self)
        ensures
            r == *self,
    {
        TransferProcessEntry { id: self.id.clone(), record: self.record.clone() }
    }
}

impl DrawableResource for TransferProcessEntry {
    fn id(&self) -> &str {
        self.id.as_str()
    }

    fn title() -> &'static str {
        "Transfer Processes"
    }

    fn fields(&self) -> Vec<Field> {
        entry_fields(&self.id, &self.record)
    }
}

/// The detail fields every plain entry shows: its identifier and its
/// rendered record.
fn entry_fields(id: &String, record: &String) -> (fields: Vec<Field>)
    ensures
        fields@.len() == 2,
{
    let mut fields: Vec<Field> = Vec::new();
    fields.push(Field::string("id", id.as_str()));
    fields.push(Field::new("record".to_owned(), FieldValue::Json(record.clone())));
    fields
}

} // verus!
