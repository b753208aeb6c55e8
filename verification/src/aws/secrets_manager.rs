//! The records of a Secrets Manager listing.
use crate::text::{bool_text, bool_to_text, or_default_text, or_empty, or_text};
use vstd::prelude::*;

verus! {

/// A secret of a listing.
#[derive(Debug)]
pub struct Secret {
    pub arn: String,
    pub name: String,
    pub description: String,
    pub kms_key_id: String,
    pub rotation_enabled: String,
    pub rotation_lambda_arn: String,
    pub last_rotated_date: String,
    pub last_changed_date: String,
    pub last_accessed_date: String,
    pub deleted_date: String,
    pub next_rotation_date: String,
    pub owning_service: String,
    pub created_date: String,
    pub primary_region: String,
}

/// The text of a missing date.
pub open spec fn not_available() -> Seq<char> {
    "N/A"@
}

impl Secret {
    /// The record of a secret: missing texts read empty, missing dates `N/A`,
    /// rotation `false` unless enabled; the creation date must be present.
    /// The last-accessed column shows the last-changed date.
    pub fn from_parts(
        arn: Option<String>,
        name: Option<String>,
        description: Option<String>,
        kms_key_id: Option<String>,
        rotation_enabled: Option<bool>,
        rotation_lambda_arn: Option<String>,
        last_rotated_date: Option<String>,
        last_changed_date: Option<String>,
        deleted_date: Option<String>,
        next_rotation_date: Option<String>,
        owning_service: Option<String>,
        created_date: Option<String>,
        primary_region: Option<String>,
    ) -> (s: Secret)
        requires
            created_date is Some,
        ensures
            s.arn@ == or_text(arn, seq![]),
            s.name@ == or_text(name, seq![]),
            s.description@ == or_text(description, seq![]),
            s.kms_key_id@ == or_text(kms_key_id, seq![]),
            s.rotation_enabled@ == bool_text(
                match rotation_enabled {
                    Some(b) => b,
                    None => false,
                },
            ),
            s.rotation_lambda_arn@ == or_text(rotation_lambda_arn, seq![]),
            s.last_rotated_date@ == or_text(last_rotated_date, not_available()),
            s.last_changed_date@ == or_text(last_changed_date, not_available()),
            s.last_accessed_date@ == or_text(last_changed_date, not_available()),
            s.deleted_date@ == or_text(deleted_date, not_available()),
            s.next_rotation_date@ == or_text(next_rotation_date, not_available()),
            s.owning_service@ == or_text(owning_service, seq![]),
            s.created_date == created_date->0,
            s.primary_region@ == or_text(primary_region, seq![]),
    {
        let last_accessed_date = match &last_changed_date {
            Some(d) => d.clone(),
            None => or_default_text(None, "N/A"),
        };
        Secret {
            arn: or_empty(arn),
            name: or_empty(name),
            description: or_empty(description),
            kms_key_id: or_empty(kms_key_id),
            rotation_enabled: bool_to_text(
                match rotation_enabled {
                    Some(b) => b,
                    None => false,
                },
            ),
            rotation_lambda_arn: or_empty(rotation_lambda_arn),
            last_rotated_date: or_default_text(last_rotated_date, "N/A"),
            last_changed_date: or_default_text(last_changed_date, "N/A"),
            last_accessed_date,
            deleted_date: or_default_text(deleted_date, "N/A"),
            next_rotation_date: or_default_text(next_rotation_date, "N/A"),
            owning_service: or_empty(owning_service),
            created_date: created_date.unwrap(),
            primary_region: or_empty(primary_region),
        }
    }
}

} // verus!
