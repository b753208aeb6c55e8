//! The records of an RDS instance listing.
use vstd::prelude::*;

verus! {

/// A database instance of a listing.
#[derive(Debug)]
pub struct DBInstance {
    pub id: String,
    pub class: String,
    pub engine: String,
    pub status: String,
    pub endpoint: String,
}

impl DBInstance {
    /// The record of an instance; every part, the endpoint's address
    /// included, must be present.
    pub fn from_parts(
        id: Option<String>,
        class: Option<String>,
        engine: Option<String>,
        status: Option<String>,
        endpoint_address: Option<String>,
    ) -> (i: DBInstance)
        requires
            id is Some,
            class is Some,
            engine is Some,
            status is Some,
            endpoint_address is Some,
        ensures
            i.id == id->0,
            i.class == class->0,
            i.engine == engine->0,
            i.status == status->0,
            i.endpoint == endpoint_address->0,
    {
        DBInstance {
            id: id.unwrap(),
            class: class.unwrap(),
            engine: engine.unwrap(),
            status: status.unwrap(),
            endpoint: endpoint_address.unwrap(),
        }
    }
}

} // verus!
