//! The data-plane browser: its row and detail projection.  The host
//! converts the remote client's instance records into these plain values,
//! with the type lists and the properties document already rendered as
//! text.

use vstd::prelude::*;

use crate::components::resources::msg::ResourcesMsg;
use crate::components::resources::{DrawableResource, Field, FieldValue, ResourcesComponent};

verus! {

/// One data-plane instance, projected to what the interface shows.
#[derive(Debug)]
pub struct DataPlaneEntry {
    pub id: String,
    pub url: String,
    pub state: String,
    pub allowed_transfer_types: String,
    pub allowed_source_types: String,
    pub allowed_dest_types: String,
    pub properties: String,
}

pub type DataPlaneMsg = ResourcesMsg<DataPlaneEntry, DataPlaneEntry>;

pub type DataPlanesComponent = ResourcesComponent<DataPlaneEntry, DataPlaneEntry>;

impl DataPlaneEntry {
    pub fn new(
        id: String,
        url: String,
        state: String,
        allowed_transfer_types: String,
        allowed_source_types: String,
        allowed_dest_types: String,
        properties: String,
    ) -> (e: DataPlaneEntry)
        ensures
            e == (DataPlaneEntry {
                id,
                url,
                state,
                allowed_transfer_types,
                allowed_source_types,
                allowed_dest_types,
                properties,
            }),
    {
        DataPlaneEntry {
            id,
            url,
            state,
            allowed_transfer_types,
            allowed_source_types,
            allowed_dest_types,
            properties,
        }
    }
}

impl Clone for DataPlaneEntry {
    fn clone(&self) -> (r: Self)
        ensures
            r == *self,
    {
        DataPlaneEntry {
            id: self.id.clone(),
            url: self.url.clone(),
            state: self.state.clone(),
            allowed_transfer_types: self.allowed_transfer_types.clone(),
            allowed_source_types: self.allowed_source_types.clone(),
            allowed_dest_types: self.allowed_dest_types.clone(),
            properties: self.properties.clone(),
        }
    }
}

impl DrawableResource for DataPlaneEntry {
    fn id(&self) -> &str {
        self.id.as_str()
    }

    fn title() -> &'static str {
        "Dataplanes"
    }

    fn fields(&self) -> Vec<Field> {
        let mut fields: Vec<Field> = Vec::new();
        fields.push(Field::string("id", self.id.as_str()));
        fields.push(Field::string("url", self.url.as_str()));
        fields.push(Field::string("state", self.state.as_str()));
        fields.push(Field::string("allowedTransferTypes", self.allowed_transfer_types.as_str()));
        fields.push(Field::string("allowedSourceTypes", self.allowed_source_types.as_str()));
        fields.push(Field::string("allowedDestTypes", self.allowed_dest_types.as_str()));
        fields.push(Field::new("properties".to_owned(), FieldValue::Json(self.properties.clone())));
        fields
    }
}

} // verus!
