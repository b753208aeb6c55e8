//! The records of Glue listings: jobs, tables, databases and job bookmarks.
use crate::text::{i64_to_decimal, or_empty, or_text, owned, signed_decimal};
use vstd::prelude::*;

verus! {

/// A Glue job, by name.
#[derive(Debug)]
pub struct GlueJobNames {
    pub job_name: String,
}

impl GlueJobNames {
    pub fn new(job_name: &str) -> (j: GlueJobNames)
        ensures
            j.job_name@ == job_name@,
    {
        GlueJobNames { job_name: owned(job_name) }
    }
}

/// A Glue table of a listing.
#[derive(Debug)]
pub struct GlueTable {
    pub table_name: String,
    pub database_name: String,
    pub description: String,
    pub table_owner: String,
    pub table_create_time: String,
    pub table_update_time: String,
    pub table_last_access_time: String,
    pub table_avg_record_size: String,
    pub table_record_count: String,
    pub table_size_key: String,
}

impl GlueTable {
    /// The record of a table: missing database, description and owner read
    /// empty; the times and the storage parameters `averageRecordSize`,
    /// `recordCount` and `sizeKey` must be present. The record count column
    /// shows `averageRecordSize` and the average record size column shows
    /// `recordCount`.
    pub fn from_parts(
        name: String,
        database_name: Option<String>,
        description: Option<String>,
        owner: Option<String>,
        create_time: Option<String>,
        update_time: Option<String>,
        last_access_time: Option<String>,
        average_record_size: Option<String>,
        record_count: Option<String>,
        size_key: Option<String>,
    ) -> (t: GlueTable)
        requires
            create_time is Some,
            update_time is Some,
            last_access_time is Some,
            average_record_size is Some,
            record_count is Some,
            size_key is Some,
        ensures
            t.table_name == name,
            t.database_name@ == or_text(database_name, seq![]),
            t.description@ == or_text(description, seq![]),
            t.table_owner@ == or_text(owner, seq![]),
            t.table_create_time == create_time->0,
            t.table_update_time == update_time->0,
            t.table_last_access_time == last_access_time->0,
            t.table_record_count == average_record_size->0,
            t.table_avg_record_size == record_count->0,
            t.table_size_key == size_key->0,
    {
        GlueTable {
            table_name: name,
            database_name: or_empty(database_name),
            description: or_empty(description),
            table_owner: or_empty(owner),
            table_create_time: create_time.unwrap(),
            table_update_time: update_time.unwrap(),
            table_last_access_time: last_access_time.unwrap(),
            table_record_count: average_record_size.unwrap(),
            table_avg_record_size: record_count.unwrap(),
            table_size_key: size_key.unwrap(),
        }
    }
}

/// A Glue database of a listing.
#[derive(Debug)]
pub struct GlueDatabase {
    pub db_name: String,
    pub db_description: String,
    pub db_location_uri: String,
    pub db_create_time: String,
}

impl GlueDatabase {
    /// The record of a database: missing description and location read empty,
    /// the creation time must be present.
    pub fn from_parts(
        name: String,
        description: Option<String>,
        location_uri: Option<String>,
        create_time: Option<String>,
    ) -> (d: GlueDatabase)
        requires
            create_time is Some,
        ensures
            d.db_name == name,
            d.db_description@ == or_text(description, seq![]),
            d.db_location_uri@ == or_text(location_uri, seq![]),
            d.db_create_time == create_time->0,
    {
        GlueDatabase {
            db_name: name,
            db_description: or_empty(description),
            db_location_uri: or_empty(location_uri),
            db_create_time: create_time.unwrap(),
        }
    }
}

/// The bookmark of a Glue job.
#[derive(Debug)]
pub struct GlueJobBookmark {
    pub job_name: String,
    pub version: String,
    pub run: String,
    pub attempt: String,
    pub run_id: String,
    pub bookmark: String,
}

impl GlueJobBookmark {
    /// The bookmark of a job's bookmark entry: the numbers in decimal; the job
    /// name, run id and bookmark must be present.
    pub fn from_entry(
        job_name: Option<String>,
        version: i32,
        run: i32,
        attempt: i32,
        run_id: Option<String>,
        job_bookmark: Option<String>,
    ) -> (b: GlueJobBookmark)
        requires
            job_name is Some,
            run_id is Some,
            job_bookmark is Some,
        ensures
            b.job_name == job_name->0,
            b.version@ == signed_decimal(version as int),
            b.run@ == signed_decimal(run as int),
            b.attempt@ == signed_decimal(attempt as int),
            b.run_id == run_id->0,
            b.bookmark == job_bookmark->0,
    {
        GlueJobBookmark {
            job_name: job_name.unwrap(),
            version: i64_to_decimal(version as i64),
            run: i64_to_decimal(run as i64),
            attempt: i64_to_decimal(attempt as i64),
            run_id: run_id.unwrap(),
            bookmark: job_bookmark.unwrap(),
        }
    }

    /// The display form of the bookmark.
    pub fn describe(&self) -> (s: String)
        ensures
            s@ == "-------------------\nJob Bookmark Description\n-------------------\n \nJob Name: "@
                + self.job_name@ + "\nVersion: "@ + self.version@ + "\nRun: "@ + self.run@
                + "\nAttempt: "@ + self.attempt@ + "\nRun ID: "@ + self.run_id@
                + "\nDescription: "@ + self.bookmark@ + "\n"@,
    {
        let mut s = owned(
            "-------------------\nJob Bookmark Description\n-------------------\n \nJob Name: ",
        );
        s.append(self.job_name.as_str());
        s.append("\nVersion: ");
        s.append(self.version.as_str());
        s.append("\nRun: ");
        s.append(self.run.as_str());
        s.append("\nAttempt: ");
        s.append(self.attempt.as_str());
        s.append("\nRun ID: ");
        s.append(self.run_id.as_str());
        s.append("\nDescription: ");
        s.append(self.bookmark.as_str());
        s.append("\n");
        s
    }
}

} // verus!
