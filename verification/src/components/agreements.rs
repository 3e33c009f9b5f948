//! The contract-agreements browser: its row and detail projection.  The
//! host converts the remote client's agreement records into these plain
//! values; the policy document arrives already rendered as text.

use vstd::prelude::*;

use crate::components::resources::msg::ResourcesMsg;
use crate::components::resources::{DrawableResource, Field, FieldValue, ResourcesComponent};
use crate::util::format_u64;

verus! {

/// One contract agreement, projected to what the interface shows.
#[derive(Debug)]
pub struct ContractAgreementEntry {
    pub id: String,
    pub contract_signing_date: u64,
    pub asset_id: String,
    pub consumer_id: String,
    pub provider_id: String,
    pub policy: String,
}

pub type ContractAgreementsMsg = ResourcesMsg<ContractAgreementEntry, ContractAgreementEntry>;

pub type ContractAgreementsComponent = ResourcesComponent<
    ContractAgreementEntry,
    ContractAgreementEntry,
>;

impl ContractAgreementEntry {
    pub fn new(
        id: String,
        contract_signing_date: u64,
        asset_id: String,
        consumer_id: String,
        provider_id: String,
        policy: String,
    ) -> (e: ContractAgreementEntry)
        ensures
            e == (ContractAgreementEntry {
                id,
                contract_signing_date,
                asset_id,
                consumer_id,
                provider_id,
                policy,
            }),
    {
        ContractAgreementEntry {
            id,
            contract_signing_date,
            asset_id,
            consumer_id,
            provider_id,
            policy,
        }
    }
}

impl Clone for ContractAgreementEntry {
    fn clone(&self) -> (r: Self)
        ensures
            r == *self,
    {
        ContractAgreementEntry {
            id: self.id.clone(),
            contract_signing_date: self.contract_signing_date,
            asset_id: self.asset_id.clone(),
            consumer_id: self.consumer_id.clone(),
            provider_id: self.provider_id.clone(),
            policy: self.policy.clone(),
        }
    }
}

impl DrawableResource for ContractAgreementEntry {
    fn id(&self) -> &str {
        self.id.as_str()
    }

    fn title() -> &'static str {
        "Contract Agreements"
    }

    fn fields(&self) -> Vec<Field> {
        let mut fields: Vec<Field> = Vec::new();
        fields.push(Field::string("id", self.id.as_str()));
        fields.push(
            Field::string("contract_sign_date", format_u64(self.contract_signing_date).as_str()),
        );
        fields.push(Field::string("asset_id", self.asset_id.as_str()));
        fields.push(Field::string("consumer_id", self.consumer_id.as_str()));
        fields.push(Field::string("provider_id", self.provider_id.as_str()));
        fields.push(Field::new("policy".to_owned(), FieldValue::Json(self.policy.clone())));
        fields
    }
}

} // verus!
