//! The endpoint-data-reference browser: its list rows are credential
//! metadata, and opening a row fetches the data address, which the host
//! hands over already rendered as text.

use vstd::prelude::*;

use crate::components::resources::msg::ResourcesMsg;
use crate::components::resources::{DrawableResource, Field, FieldValue, ResourcesComponent};

verus! {

pub type EdrsMsg = ResourcesMsg<EdrMetadataEntry, EdrEntry>;

pub type EdrsComponent = ResourcesComponent<EdrMetadataEntry, EdrEntry>;

/// The metadata row of one endpoint data reference.
#[derive(Debug)]
pub struct EdrMetadataEntry {
    pub transfer_process_id: String,
    pub asset_id: String,
    pub agreement_id: String,
    pub provider_id: String,
    pub contract_negotiation_id: Option<String>,
    pub created_at: u64,
}

impl EdrMetadataEntry {
    pub fn new(
        transfer_process_id: String,
        asset_id: String,
        agreement_id: String,
        provider_id: String,
        contract_negotiation_id: Option<String>,
        created_at: u64,
    ) -> (e: EdrMetadataEntry)
        ensures
            e == (EdrMetadataEntry {
                transfer_process_id,
                asset_id,
                agreement_id,
                provider_id,
                contract_negotiation_id,
                created_at,
            }),
    {
        EdrMetadataEntry {
            transfer_process_id,
            asset_id,
            agreement_id,
            provider_id,
            contract_negotiation_id,
            created_at,
        }
    }

    /// The row's identifier: the transfer process it belongs to.
    pub fn id(&self) -> (r: &str)
        ensures
            r@ == self.transfer_process_id@,
    {
        self.transfer_process_id.as_str()
    }
}

impl Clone for EdrMetadataEntry {
    fn clone(&self) -> (r: Self)
        ensures
            r == *self,
    {
        EdrMetadataEntry {
            transfer_process_id: self.transfer_process_id.clone(),
            asset_id: self.asset_id.clone(),
            agreement_id: self.agreement_id.clone(),
            provider_id: self.provider_id.clone(),
            contract_negotiation_id: match &self.contract_negotiation_id {
                Some(s) => Some(s.clone()),
                None => None,
            },
            created_at: self.created_at,
        }
    }
}

/// One opened endpoint data reference: its identifier and its data address
/// rendered as text.
#[derive(Debug)]
pub struct EdrEntry {
    pub id: String,
    pub data_address: String,
}

impl EdrEntry {
    pub fn new(id: String, data_address: String) -> (e: EdrEntry)
        ensures
            e == (EdrEntry { id, data_address }),
    {
        EdrEntry { id, data_address }
    }
}

impl Clone for EdrEntry {
    fn clone(&self) -> (r: Self)
        ensures
            r == *self,
    {
        EdrEntry { id: self.id.clone(), data_address: self.data_address.clone() }
    }
}

impl DrawableResource for EdrEntry {
    fn id(&self) -> &str {
        self.id.as_str()
    }

    fn title() -> &'static str {
        "Edrs"
    }

    fn fields(&self) -> Vec<Field> {
        let mut fields: Vec<Field> = Vec::new();
        fields.push(Field::new("id".to_owned(), FieldValue::Str(self.id.clone())));
        fields.push(
            Field::new("data_address".to_owned(), FieldValue::Json(self.data_address.clone())),
        );
        fields
    }
}

} // verus!
