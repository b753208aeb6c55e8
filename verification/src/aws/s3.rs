//! The records of S3 listings: buckets, objects and object versions.
use crate::text::{or_default_text, or_empty, or_text};
use vstd::prelude::*;

verus! {

/// A bucket of a listing.
#[derive(Debug)]
pub struct S3Bucket {
    pub name: String,
    pub created_at: String,
    pub region: String,
}

impl S3Bucket {
    /// The record of a bucket: name and creation date must be present, a
    /// missing region reads `None`.
    pub fn from_parts(name: Option<String>, created_at: Option<String>, region: Option<String>) -> (b:
        S3Bucket)
        requires
            name is Some,
            created_at is Some,
        ensures
            b.name == name->0,
            b.created_at == created_at->0,
            b.region@ == or_text(region, "None"@),
    {
        S3Bucket {
            name: name.unwrap(),
            created_at: created_at.unwrap(),
            region: or_default_text(region, "None"),
        }
    }
}

/// An object of a listing.
#[derive(Debug)]
pub struct S3Object {
    pub obj_key: String,
    pub obj_last_modified_at: String,
    pub obj_etag: String,
    pub obj_size: i64,
    pub obj_storage_class: String,
}

impl S3Object {
    /// The record of an object; every part must be present.
    pub fn from_parts(
        key: Option<String>,
        last_modified: Option<String>,
        e_tag: Option<String>,
        size: Option<i64>,
        storage_class: Option<String>,
    ) -> (o: S3Object)
        requires
            key is Some,
            last_modified is Some,
            e_tag is Some,
            size is Some,
            storage_class is Some,
        ensures
            o.obj_key == key->0,
            o.obj_last_modified_at == last_modified->0,
            o.obj_etag == e_tag->0,
            o.obj_size == size->0,
            o.obj_storage_class == storage_class->0,
    {
        S3Object {
            obj_key: key.unwrap(),
            obj_last_modified_at: last_modified.unwrap(),
            obj_etag: e_tag.unwrap(),
            obj_size: size.unwrap(),
            obj_storage_class: storage_class.unwrap(),
        }
    }
}

/// A version of an object.
#[derive(Debug)]
pub struct S3ObjectVersion {
    pub obj_key: String,
    pub obj_version_id: String,
    pub obj_is_latest: bool,
    pub obj_last_modified_date: String,
    pub obj_size: i64,
    pub obj_etag: String,
    pub obj_owner: String,
}

impl S3ObjectVersion {
    /// The record of a version: missing key, version id, size, tag and owner
    /// name read empty or zero; the latest flag, modification date and owner
    /// must be present.
    pub fn from_parts(
        key: Option<String>,
        version_id: Option<String>,
        is_latest: Option<bool>,
        last_modified: Option<String>,
        size: Option<i64>,
        e_tag: Option<String>,
        owner: Option<Option<String>>,
    ) -> (v: S3ObjectVersion)
        requires
            is_latest is Some,
            last_modified is Some,
            owner is Some,
        ensures
            v.obj_key@ == or_text(key, seq![]),
            v.obj_version_id@ == or_text(version_id, seq![]),
            v.obj_is_latest == is_latest->0,
            v.obj_last_modified_date == last_modified->0,
            v.obj_size == match size {
                Some(n) => n,
                None => 0,
            },
            v.obj_etag@ == or_text(e_tag, seq![]),
            v.obj_owner@ == or_text(owner->0, seq![]),
    {
        S3ObjectVersion {
            obj_key: or_empty(key),
            obj_version_id: or_empty(version_id),
            obj_is_latest: is_latest.unwrap(),
            obj_last_modified_date: last_modified.unwrap(),
            obj_size: match size {
                Some(n) => n,
                None => 0,
            },
            obj_etag: or_empty(e_tag),
            obj_owner: or_empty(owner.unwrap()),
        }
    }
}

} // verus!
