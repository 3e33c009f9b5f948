//! The detail view of a browser: the one opened resource, if any.  The
//! host renders its fields; the runtime only holds it.

use vstd::prelude::*;

use crate::types::info::{sheet_views, InfoSheet};

verus! {

/// The binding the detail view advertises.
pub open spec fn detail_bindings() -> Seq<(Seq<char>, Seq<char>)> {
    seq![("<esc>"@, "Back"@)]
}

/// The opened resource of a browser.
#[derive(Debug)]
pub struct ResourceComponent<R> {
    pub name: String,
    pub resource: Option<R>,
}

impl<R> ResourceComponent<R> {
    pub fn new(name: String) -> (c: ResourceComponent<R>)
        ensures
            c.name == name,
            c.resource is None,
    {
        ResourceComponent { name, resource: None }
    }

    /// Replaces the resource on display.
    pub fn update_resource(&mut self, resource: Option<R>)
        ensures
            final(self).name == old(self).name,
            final(self).resource == resource,
    {
        self.resource = resource;
    }

    /// The resource on display.
    pub fn resource(&self) -> (r: &Option<R>)
        ensures
            *r == self.resource,
    {
        &self.resource
    }

    /// The key bindings the detail view contributes to the help sheet:
    /// exactly [`detail_bindings`].
    pub fn info_sheet(&self) -> (r: InfoSheet)
        ensures
            sheet_views(r) == detail_bindings(),
    {
        let r = InfoSheet::default().key_binding("<esc>", "Back");
        proof {
            assert(sheet_views(r) =~= detail_bindings());
        }
        r
    }
}

} // verus!
