//! The description of a Redshift cluster.
use crate::text::{bool_text, bool_to_text, i64_to_decimal, owned, signed_decimal};
use vstd::prelude::*;

verus! {

/// The description of a cluster.
#[derive(Debug)]
pub struct ClusterDescription {
    pub name: String,
    pub node_type: String,
    pub status: String,
    pub master_username: String,
    pub db_name: String,
    pub endpoint: String,
    pub create_time: String,
    pub encrypted: String,
}

impl ClusterDescription {
    /// The description with every field empty, as `Default` gives it.
    pub fn empty() -> (d: ClusterDescription)
        ensures
            d.name@.len() == 0 && d.node_type@.len() == 0 && d.status@.len() == 0
                && d.master_username@.len() == 0 && d.db_name@.len() == 0 && d.endpoint@.len()
                == 0 && d.create_time@.len() == 0 && d.encrypted@.len() == 0,
    {
        ClusterDescription {
            name: String::new(),
            node_type: String::new(),
            status: String::new(),
            master_username: String::new(),
            db_name: String::new(),
            endpoint: String::new(),
            create_time: String::new(),
            encrypted: String::new(),
        }
    }

    /// The description of a cluster: the endpoint reads `{address}:{port}`,
    /// encryption `true` or `false`; every part must be present.
    pub fn from_cluster(
        identifier: Option<String>,
        node_type: Option<String>,
        status: Option<String>,
        master_username: Option<String>,
        db_name: Option<String>,
        address: Option<String>,
        port: Option<i32>,
        create_time: Option<String>,
        encrypted: Option<bool>,
    ) -> (d: ClusterDescription)
        requires
            identifier is Some,
            node_type is Some,
            status is Some,
            master_username is Some,
            db_name is Some,
            address is Some,
            port is Some,
            create_time is Some,
            encrypted is Some,
        ensures
            d.name == identifier->0,
            d.node_type == node_type->0,
            d.status == status->0,
            d.master_username == master_username->0,
            d.db_name == db_name->0,
            d.endpoint@ == address->0@ + ":"@ + signed_decimal(port->0 as int),
            d.create_time == create_time->0,
            d.encrypted@ == bool_text(encrypted->0),
    {
        let mut endpoint = owned(address.unwrap().as_str());
        endpoint.append(":");
        endpoint.append(i64_to_decimal(port.unwrap() as i64).as_str());
        ClusterDescription {
            name: identifier.unwrap(),
            node_type: node_type.unwrap(),
            status: status.unwrap(),
            master_username: master_username.unwrap(),
            db_name: db_name.unwrap(),
            endpoint,
            create_time: create_time.unwrap(),
            encrypted: bool_to_text(encrypted.unwrap()),
        }
    }

    /// The description a listing settles on: that of its last cluster, or the
    /// empty description where there is none.
    pub fn from_clusters(mut clusters: Vec<ClusterDescription>) -> (d: ClusterDescription)
        ensures
            clusters@.len() > 0 ==> d == clusters@.last(),
            clusters@.len() == 0 ==> d.name@.len() == 0 && d.node_type@.len() == 0
                && d.status@.len() == 0 && d.master_username@.len() == 0 && d.db_name@.len() == 0
                && d.endpoint@.len() == 0 && d.create_time@.len() == 0 && d.encrypted@.len()
                == 0,
    {
        match clusters.pop() {
            Some(d) => d,
            None => ClusterDescription::empty(),
        }
    }

    /// The display form of the description.
    pub fn describe(&self) -> (s: String)
        ensures
            s@ == "-------------------\nCluster Description\n-------------------\n \nCluster Name: "@
                + self.name@ + "\nNode Type: "@ + self.node_type@ + "\nStatus: "@ + self.status@
                + "\nMaster Username: "@ + self.master_username@ + "\nDatabase Name: "@
                + self.db_name@ + "\nEndpoint: "@ + self.endpoint@ + "\nCreate Time: "@
                + self.create_time@ + "\nIs Encrypted: "@ + self.encrypted@ + "\n"@,
    {
        let mut s = owned(
            "-------------------\nCluster Description\n-------------------\n \nCluster Name: ",
        );
        s.append(self.name.as_str());
        s.append("\nNode Type: ");
        s.append(self.node_type.as_str());
        s.append("\nStatus: ");
        s.append(self.status.as_str());
        s.append("\nMaster Username: ");
        s.append(self.master_username.as_str());
        s.append("\nDatabase Name: ");
        s.append(self.db_name.as_str());
        s.append("\nEndpoint: ");
        s.append(self.endpoint.as_str());
        s.append("\nCreate Time: ");
        s.append(self.create_time.as_str());
        s.append("\nIs Encrypted: ");
        s.append(self.encrypted.as_str());
        s.append("\n");
        s
    }
}

} // verus!
