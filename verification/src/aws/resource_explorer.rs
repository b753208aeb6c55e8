//! The records of a Resource Explorer search.
use vstd::prelude::*;

verus! {

/// A resource found by a search.
#[derive(Debug)]
pub struct ResourceDescription {
    pub arn: String,
    pub owning_account_id: String,
    pub region: String,
    pub service: String,
    pub resource_type: String,
}

impl ResourceDescription {
    /// The record of a resource; every part must be present.
    pub fn from_parts(
        arn: Option<String>,
        owning_account_id: Option<String>,
        region: Option<String>,
        service: Option<String>,
        resource_type: Option<String>,
    ) -> (r: ResourceDescription)
        requires
            arn is Some,
            owning_account_id is Some,
            region is Some,
            service is Some,
            resource_type is Some,
        ensures
            r.arn == arn->0,
            r.owning_account_id == owning_account_id->0,
            r.region == region->0,
            r.service == service->0,
            r.resource_type == resource_type->0,
    {
        ResourceDescription {
            arn: arn.unwrap(),
            owning_account_id: owning_account_id.unwrap(),
            region: region.unwrap(),
            service: service.unwrap(),
            resource_type: resource_type.unwrap(),
        }
    }
}

} // verus!
