//! The records of DynamoDB: table names and the description of a table.
use crate::text::{i64_to_decimal, owned, signed_decimal};
use vstd::prelude::*;

verus! {

/// A table of a listing, by name.
#[derive(Debug)]
pub struct DynamoDBTable {
    pub table_name: String,
}

impl DynamoDBTable {
    pub fn new(table_name: &str) -> (t: DynamoDBTable)
        ensures
            t.table_name@ == table_name@,
    {
        DynamoDBTable { table_name: owned(table_name) }
    }
}

/// The role of an attribute in a table's key.
#[derive(Debug, Clone, Copy, PartialEq, Eq, Structural)]
pub enum KeyKind {
    Hash,
    Range,
    Other,
}

/// One attribute of a table's key schema.
#[derive(Debug)]
pub struct KeySchemaElement {
    pub attribute_name: String,
    pub key_type: KeyKind,
}

/// Some element of `schema` has the role `kind`.
pub open spec fn has_key_kind(schema: Seq<KeySchemaElement>, kind: KeyKind) -> bool {
    exists|i: int| 0 <= i < schema.len() && schema[i].key_type == kind
}

/// The index of the first element of `schema` with the role `kind`.
pub open spec fn first_key_index(schema: Seq<KeySchemaElement>, kind: KeyKind, i: int) -> bool {
    0 <= i < schema.len() && schema[i].key_type == kind && forall|j: int|
        0 <= j < i ==> schema[j].key_type != kind
}

/// The position of the first element of `schema` with the role `kind`.
pub fn find_key(schema: &Vec<KeySchemaElement>, kind: KeyKind) -> (r: Option<usize>)
    ensures
        match r {
            Some(i) => first_key_index(schema@, kind, i as int),
            None => !has_key_kind(schema@, kind),
        },
{
    let mut i: usize = 0;
    while i < schema.len()
        invariant
            i <= schema@.len(),
            forall|j: int| 0 <= j < i ==> schema@[j].key_type != kind,
        decreases schema@.len() - i,
    {
        if schema[i].key_type == kind {
            return Some(i);
        }
        i = i + 1;
    }
    None
}

/// The description of a table.
#[derive(Debug)]
pub struct TableDescription {
    pub name: String,
    pub hash_key: String,
    pub range_key: String,
    pub status: String,
    pub creation_date: String,
    pub read_capacity: i64,
    pub write_capacity: i64,
    pub size: i64,
    pub item_count: i64,
}

impl TableDescription {
    /// The description of a table: the hash and range keys are the first
    /// attributes of the key schema with those roles; every part must be
    /// present.
    pub fn from_parts(
        table_name: Option<String>,
        key_schema: Option<Vec<KeySchemaElement>>,
        status: Option<String>,
        creation_date: Option<String>,
        read_capacity: Option<i64>,
        write_capacity: Option<i64>,
        size: Option<i64>,
        item_count: Option<i64>,
    ) -> (d: TableDescription)
        requires
            table_name is Some,
            key_schema is Some,
            has_key_kind(key_schema->0@, KeyKind::Hash),
            has_key_kind(key_schema->0@, KeyKind::Range),
            status is Some,
            creation_date is Some,
            read_capacity is Some,
            write_capacity is Some,
            size is Some,
            item_count is Some,
        ensures
            d.name == table_name->0,
            exists|i: int|
                first_key_index(key_schema->0@, KeyKind::Hash, i) && d.hash_key@
                    == key_schema->0@[i].attribute_name@,
            exists|i: int|
                first_key_index(key_schema->0@, KeyKind::Range, i) && d.range_key@
                    == key_schema->0@[i].attribute_name@,
            d.status == status->0,
            d.creation_date == creation_date->0,
            d.read_capacity == read_capacity->0,
            d.write_capacity == write_capacity->0,
            d.size == size->0,
            d.item_count == item_count->0,
    {
        let schema = key_schema.unwrap();
        let h = find_key(&schema, KeyKind::Hash).unwrap();
        let r = find_key(&schema, KeyKind::Range).unwrap();
        let hash_key = owned(schema[h].attribute_name.as_str());
        let range_key = owned(schema[r].attribute_name.as_str());
        TableDescription {
            name: table_name.unwrap(),
            hash_key,
            range_key,
            status: status.unwrap(),
            creation_date: creation_date.unwrap(),
            read_capacity: read_capacity.unwrap(),
            write_capacity: write_capacity.unwrap(),
            size: size.unwrap(),
            item_count: item_count.unwrap(),
        }
    }

    /// The display form of the description.
    pub fn describe(&self) -> (s: String)
        ensures
            s@ == "-------------------\nTable Description\n-------------------\n \n            Table Name: "@
                + self.name@ + "\nHash Key: "@ + self.hash_key@ + "\nRange Key: "@
                + self.range_key@ + "\nStatus: \n            "@ + self.status@
                + "\nCreation Date: "@ + self.creation_date@ + "\nRead Capacity: "@
                + signed_decimal(self.read_capacity as int) + "\nWrite Capacity: \n            "@
                + signed_decimal(self.write_capacity as int) + "\nSize: "@ + signed_decimal(
                self.size as int,
            ) + "\nItem Count: "@ + signed_decimal(self.item_count as int),
    {
        let mut s = owned(
            "-------------------\nTable Description\n-------------------\n \n            Table Name: ",
        );
        s.append(self.name.as_str());
        s.append("\nHash Key: ");
        s.append(self.hash_key.as_str());
        s.append("\nRange Key: ");
        s.append(self.range_key.as_str());
        s.append("\nStatus: \n            ");
        s.append(self.status.as_str());
        s.append("\nCreation Date: ");
        s.append(self.creation_date.as_str());
        s.append("\nRead Capacity: ");
        s.append(i64_to_decimal(self.read_capacity).as_str());
        s.append("\nWrite Capacity: \n            ");
        s.append(i64_to_decimal(self.write_capacity).as_str());
        s.append("\nSize: ");
        s.append(i64_to_decimal(self.size).as_str());
        s.append("\nItem Count: ");
        s.append(i64_to_decimal(self.item_count).as_str());
        s
    }
}

} // verus!
