//! The credentials file as the second version of the tool writes it: the same
//! keys without the expiration.
use crate::aws::credentials::{credentials_document, credentials_sections};
use crate::ini::{ini_default_options, ini_sections};
use crate::text::owned;
pub use crate::utils::fileutil::{AgeDuration, FileAge};
use configparser::ini::Ini;
use vstd::prelude::*;

verus! {

/// The tool's credentials file and the age it was last measured at.
pub struct AwsCredentialsConfig {
    pub credentials_file: String,
    pub age: FileAge,
}

impl AwsCredentialsConfig {
    pub fn new(credentials_file: &str) -> (c: AwsCredentialsConfig)
        ensures
            c.credentials_file@ == credentials_file@,
            c.age == FileAge::from_elapsed_spec(AgeDuration { secs: 0, nanos: 0 }),
    {
        AwsCredentialsConfig {
            credentials_file: owned(credentials_file),
            age: FileAge::from_elapsed(AgeDuration { secs: 0, nanos: 0 }),
        }
    }

    /// The document written over the credentials file for `profile`: its
    /// account id, region, keys and session token.
    pub fn create_or_update_credentials(
        &self,
        profile: &str,
        region: &str,
        account_id: &str,
        access_key_id: &str,
        secret_access_key: &str,
        session_token: &str,
    ) -> (doc: Ini)
        ensures
            ini_default_options(doc),
            ini_sections(doc) == credentials_sections(
                profile@,
                region@,
                account_id@,
                access_key_id@,
                secret_access_key@,
                session_token@,
                None,
            ),
    {
        credentials_document(
            profile,
            region,
            account_id,
            access_key_id,
            secret_access_key,
            session_token,
            None,
        )
    }

    /// Records the age of the credentials file, given how long ago it was last
    /// modified, and returns it.
    pub fn get_credentials_file_age(&mut self, elapsed: AgeDuration) -> (age: FileAge)
        ensures
            age == FileAge::from_elapsed_spec(elapsed),
            final(self).age == age,
            final(self).credentials_file == old(self).credentials_file,
    {
        let age = FileAge::from_elapsed(elapsed);
        self.age = age;
        age
    }
}

} // verus!
