//! The tool's credentials file: a profile's credentials, the document written
//! for a profile, and the dialogue that decides whether the credentials can be
//! used as they are.
use crate::aws::config::{
    credential_of, credentials_readable, profile_value, read_profile_credentials, IniMap,
};
use crate::ini::{
    fold_case, ini_default_options, ini_has_section, ini_new, ini_parse, ini_read, ini_sections,
    ini_set, ini_set_spec,
};
use crate::text::{i64_to_decimal, owned, signed_decimal, str_equals};
pub use crate::utils::fileutil::{AgeDuration, FileAge};
use configparser::ini::Ini;
use vstd::prelude::*;

verus! {

/// Where the credentials file lies below the home directory by default.
pub const DEFAULT_CREDENTIALS_PATH: &'static str = ".aws_sso/credentials";

/// Credentials older than this many seconds (six hours) are outdated.
pub const CREDENTIALS_MAX_AGE_SECS: u64 = 21600;

/// The path of a file: the one an environment variable names where it is
/// set, else `{home}/{relative}`.
pub fn file_path_or(env_value: Option<String>, home: &str, relative: &str) -> (p: String)
    ensures
        p@ == match env_value {
            Some(v) => v@,
            None => home@ + "/"@ + relative@,
        },
{
    match env_value {
        Some(v) => v,
        None => crate::text::concat3(home, "/", relative),
    }
}

/// The path of the credentials file: `CREDENTIALS_PATH` where that variable
/// is set, else `.aws_sso/credentials` under the home directory.
pub fn load_credentials_file(env_value: Option<String>, home: &str) -> (p: String)
    ensures
        p@ == match env_value {
            Some(v) => v@,
            None => home@ + "/"@ + DEFAULT_CREDENTIALS_PATH@,
        },
{
    file_path_or(env_value, home, DEFAULT_CREDENTIALS_PATH)
}

/// A profile's credentials together with the file they were read from.
pub struct AWSCredentials {
    pub credential_file: String,
    pub age: FileAge,
    pub profile: String,
    pub region: String,
    pub access_key_id: String,
    pub secret_access_key: String,
    pub session_token: String,
}

impl AWSCredentials {
    /// The credentials of `profile` in the file at `path`, whose text is
    /// `contents`.
    pub fn new(path: &str, contents: String, profile: &str) -> (c: AWSCredentials)
        requires
            credentials_readable(contents@, profile@),
        ensures
            c.credential_file@ == path@,
            c.age == FileAge::from_elapsed_spec(AgeDuration { secs: 0, nanos: 0 }),
            c.profile@ == profile@,
            c.region@ == credential_of(contents@, profile@, "region"@),
            c.access_key_id@ == credential_of(contents@, profile@, "aws_access_key_id"@),
            c.secret_access_key@ == credential_of(contents@, profile@, "aws_secret_access_key"@),
            c.session_token@ == credential_of(contents@, profile@, "aws_session_token"@),
    {
        let creds = read_profile_credentials(contents, profile).unwrap();
        AWSCredentials {
            credential_file: owned(path),
            age: FileAge::from_elapsed(AgeDuration { secs: 0, nanos: 0 }),
            profile: owned(profile),
            region: creds.region,
            access_key_id: creds.access_key_id,
            secret_access_key: creds.secret_access_key,
            session_token: creds.session_token,
        }
    }

    /// The credentials of `profile`, or `None` where `new` cannot read them.
    pub fn try_new(path: &str, contents: String, profile: &str) -> (r: Option<AWSCredentials>)
        ensures
            r is Some <==> credentials_readable(contents@, profile@),
            r matches Some(c) ==> {
                &&& c.credential_file@ == path@
                &&& c.profile@ == profile@
                &&& c.region@ == credential_of(contents@, profile@, "region"@)
                &&& c.access_key_id@ == credential_of(contents@, profile@, "aws_access_key_id"@)
                &&& c.secret_access_key@ == credential_of(
                    contents@,
                    profile@,
                    "aws_secret_access_key"@,
                )
                &&& c.session_token@ == credential_of(contents@, profile@, "aws_session_token"@)
            },
    {
        let copy = contents.clone();
        match read_profile_credentials(copy, profile) {
            Some(_) => Some(AWSCredentials::new(path, contents, profile)),
            None => None,
        }
    }

    /// Records the age of the credentials file, given how long ago it was last
    /// modified, and returns it.
    pub fn get_credentials_file_age(&mut self, elapsed: AgeDuration) -> (age: FileAge)
        ensures
            age == FileAge::from_elapsed_spec(elapsed),
            final(self).age == age,
    {
        let age = FileAge::from_elapsed(elapsed);
        self.age = age;
        age
    }
}

/// The sections written for a profile's credentials: account id, region,
/// access key id, secret access key and session token, and, where given, the
/// expiration as a decimal number, each set in this order on an empty document.
pub open spec fn credentials_sections(
    profile: Seq<char>,
    region: Seq<char>,
    account_id: Seq<char>,
    access_key_id: Seq<char>,
    secret_access_key: Seq<char>,
    session_token: Seq<char>,
    expiration: Option<int>,
) -> IniMap {
    let p = fold_case(profile);
    let m1 = ini_set_spec(Map::empty(), p, fold_case("aws_account_id"@), Some(account_id));
    let m2 = ini_set_spec(m1, p, fold_case("region"@), Some(region));
    let m3 = ini_set_spec(m2, p, fold_case("aws_access_key_id"@), Some(access_key_id));
    let m4 = ini_set_spec(m3, p, fold_case("aws_secret_access_key"@), Some(secret_access_key));
    let m5 = ini_set_spec(m4, p, fold_case("aws_session_token"@), Some(session_token));
    match expiration {
        Some(e) => ini_set_spec(m5, p, fold_case("expiration"@), Some(signed_decimal(e))),
        None => m5,
    }
}

/// The document holding a profile's credentials; `expiration`, where given,
/// is written as a decimal number.
pub fn credentials_document(
    profile: &str,
    region: &str,
    account_id: &str,
    access_key_id: &str,
    secret_access_key: &str,
    session_token: &str,
    expiration: Option<i64>,
) -> (doc: Ini)
    ensures
        ini_default_options(doc),
        ini_sections(doc) == credentials_sections(
            profile@,
            region@,
            account_id@,
            access_key_id@,
            secret_access_key@,
            session_token@,
            match expiration {
                Some(e) => Some(e as int),
                None => None,
            },
        ),
{
    let mut credentials = ini_new();
    ini_set(&mut credentials, profile, "aws_account_id", Some(owned(account_id)));
    ini_set(&mut credentials, profile, "region", Some(owned(region)));
    ini_set(&mut credentials, profile, "aws_access_key_id", Some(owned(access_key_id)));
    ini_set(&mut credentials, profile, "aws_secret_access_key", Some(owned(secret_access_key)));
    ini_set(&mut credentials, profile, "aws_session_token", Some(owned(session_token)));
    match expiration {
        Some(e) => {
            ini_set(&mut credentials, profile, "expiration", Some(i64_to_decimal(e)));
        },
        None => {},
    }
    credentials
}

/// A profile's credentials as written back: the value under each key of the
/// written section is the one given.
pub proof fn lemma_credentials_read_back(
    profile: Seq<char>,
    region: Seq<char>,
    account_id: Seq<char>,
    access_key_id: Seq<char>,
    secret_access_key: Seq<char>,
    session_token: Seq<char>,
    expiration: Option<int>,
)
    ensures
        ({
            let m = credentials_sections(
                profile,
                region,
                account_id,
                access_key_id,
                secret_access_key,
                session_token,
                expiration,
            );
            &&& profile_value(m, profile, "aws_account_id"@) == Some(account_id)
            &&& profile_value(m, profile, "region"@) == Some(region)
            &&& profile_value(m, profile, "aws_access_key_id"@) == Some(access_key_id)
            &&& profile_value(m, profile, "aws_secret_access_key"@) == Some(secret_access_key)
            &&& profile_value(m, profile, "aws_session_token"@) == Some(session_token)
            &&& profile_value(m, profile, "expiration"@) == match expiration {
                Some(e) => Some(signed_decimal(e)),
                None => None,
            }
        }),
{
    reveal_strlit("aws_account_id");
    reveal_strlit("region");
    reveal_strlit("aws_access_key_id");
    reveal_strlit("aws_secret_access_key");
    reveal_strlit("aws_session_token");
    reveal_strlit("expiration");
    let k1 = fold_case("aws_account_id"@);
    let k2 = fold_case("region"@);
    let k3 = fold_case("aws_access_key_id"@);
    let k4 = fold_case("aws_secret_access_key"@);
    let k5 = fold_case("aws_session_token"@);
    let k6 = fold_case("expiration"@);
    assert(crate::text::all_ascii("aws_account_id"@));
    assert(crate::text::all_ascii("region"@));
    assert(crate::text::all_ascii("aws_access_key_id"@));
    assert(crate::text::all_ascii("aws_secret_access_key"@));
    assert(crate::text::all_ascii("aws_session_token"@));
    assert(crate::text::all_ascii("expiration"@));
    assert(k1.len() == 14 && k2.len() == 6 && k3.len() == 17 && k4.len() == 21 && k5.len() == 17
        && k6.len() == 10);
    assert(k3[4] == 'a' && k5[4] == 's');
}

/// The tool's credentials file and the age it was last measured at.
pub struct AwsCredentialsConfig {
    pub credentials_file: String,
    pub age: FileAge,
}

impl AwsCredentialsConfig {
    pub fn new(credentials_file: &str) -> (c: AwsCredentialsConfig)
        ensures
            c.credentials_file@ == credentials_file@,
            c.age == FileAge::from_elapsed_spec(AgeDuration { secs: 0, nanos: 0 }),
    {
        AwsCredentialsConfig {
            credentials_file: owned(credentials_file),
            age: FileAge::from_elapsed(AgeDuration { secs: 0, nanos: 0 }),
        }
    }

    /// The document written over the credentials file for `profile`: its
    /// account id, region, keys, session token and expiration.
    pub fn create_or_update_credentials(
        &self,
        profile: &str,
        region: &str,
        account_id: &str,
        access_key_id: &str,
        secret_access_key: &str,
        session_token: &str,
        expiration: i64,
    ) -> (doc: Ini)
        ensures
            ini_default_options(doc),
            ini_sections(doc) == credentials_sections(
                profile@,
                region@,
                account_id@,
                access_key_id@,
                secret_access_key@,
                session_token@,
                Some(expiration as int),
            ),
    {
        credentials_document(
            profile,
            region,
            account_id,
            access_key_id,
            secret_access_key,
            session_token,
            Some(expiration),
        )
    }

    /// Records the age of the credentials file, given how long ago it was last
    /// modified, and returns it.
    pub fn get_credentials_file_age(&mut self, elapsed: AgeDuration) -> (age: FileAge)
        ensures
            age == FileAge::from_elapsed_spec(elapsed),
            final(self).age == age,
            final(self).credentials_file == old(self).credentials_file,
    {
        let age = FileAge::from_elapsed(elapsed);
        self.age = age;
        age
    }
}

/// The document written to the credentials file at the end of the first
/// configuration: the same keys as a profile update, with the expiration.
pub fn write_to_credentials_file(
    profile: &str,
    region: &str,
    account_id: &str,
    access_key_id: &str,
    secret_access_key: &str,
    session_token: &str,
    expiration: i64,
) -> (doc: Ini)
    ensures
        ini_default_options(doc),
        ini_sections(doc) == credentials_sections(
            profile@,
            region@,
            account_id@,
            access_key_id@,
            secret_access_key@,
            session_token@,
            Some(expiration as int),
        ),
{
    credentials_document(
        profile,
        region,
        account_id,
        access_key_id,
        secret_access_key,
        session_token,
        Some(expiration),
    )
}

/// Whether the credentials text has a section named exactly `profile`, as
/// `contains_key` on the loaded map decides it; `None` where the text does not
/// parse.
pub fn profile_in_credentials(contents: String, profile: &str) -> (r: Option<bool>)
    ensures
        r == match ini_parse(contents@) {
            Some(m) => Some(m.contains_key(profile@)),
            None => None,
        },
{
    let mut doc = ini_new();
    if !ini_read(&mut doc, contents) {
        return None;
    }
    Some(ini_has_section(&doc, profile))
}

// ---------------------------------------------------------------------------
// Checking the credentials before use
// ---------------------------------------------------------------------------

/// Where the credentials check stands.
#[derive(Debug, Clone, Copy, PartialEq, Eq, Structural)]
pub enum ValidityStep {
    /// The file is missing: ask whether to configure it.
    AskConfigureMissing,
    /// The file is outdated: ask whether to continue.
    AskContinueOutdated,
    /// Continuing with outdated credentials: ask whether to reconfigure.
    AskReconfigure,
    /// The file is recent: find out whether it holds the profile.
    CheckProfile,
    /// The profile is missing: ask whether to configure it.
    AskConfigureProfile,
    /// Configure SSO and write fresh credentials.
    Configure,
    /// The check is over; whether the credentials can be used.
    Finish(bool),
    /// Leave the program with this exit code.
    Exit(i32),
}

/// What the dialogue learns at a step.
pub enum ValidityEvent {
    /// The answer to the pending question.
    Answer(String),
    /// Whether the credentials file holds the profile.
    ProfilePresent(bool),
    /// The configuration was done and the credentials written.
    Configured,
}

/// The first step: a missing file asks to configure, an outdated one (older
/// than six hours) asks to continue, and a recent one has its profile looked
/// up.
pub open spec fn validity_start_spec(file_exists: bool, age: FileAge) -> ValidityStep {
    if !file_exists {
        ValidityStep::AskConfigureMissing
    } else if age.age_duration.secs > CREDENTIALS_MAX_AGE_SECS || (age.age_duration.secs
        == CREDENTIALS_MAX_AGE_SECS && age.age_duration.nanos > 0) {
        ValidityStep::AskContinueOutdated
    } else {
        ValidityStep::CheckProfile
    }
}

/// The step after `event`: only the answer `no` declines; declining to
/// configure a missing file exits with code 1, declining to continue or to
/// configure a missing profile gives up, declining to reconfigure keeps the
/// credentials; a configuration ends the check in success.
pub open spec fn validity_next_spec(step: ValidityStep, event: ValidityEvent) -> ValidityStep {
    match event {
        ValidityEvent::Answer(a) => {
            let no = a@ == seq!['n', 'o'];
            match step {
                ValidityStep::AskConfigureMissing => if no {
                    ValidityStep::Exit(1)
                } else {
                    ValidityStep::Configure
                },
                ValidityStep::AskContinueOutdated => if no {
                    ValidityStep::Finish(false)
                } else {
                    ValidityStep::AskReconfigure
                },
                ValidityStep::AskReconfigure => if no {
                    ValidityStep::Finish(true)
                } else {
                    ValidityStep::Configure
                },
                ValidityStep::AskConfigureProfile => if no {
                    ValidityStep::Finish(false)
                } else {
                    ValidityStep::Configure
                },
                _ => step,
            }
        },
        ValidityEvent::ProfilePresent(present) => match step {
            ValidityStep::CheckProfile => if present {
                ValidityStep::Finish(true)
            } else {
                ValidityStep::AskConfigureProfile
            },
            _ => step,
        },
        ValidityEvent::Configured => match step {
            ValidityStep::Configure => ValidityStep::Finish(true),
            _ => step,
        },
    }
}

/// The question each asking step puts to the user; the other steps ask none.
pub open spec fn validity_question_spec(step: ValidityStep) -> Option<Seq<char>> {
    match step {
        ValidityStep::AskConfigureMissing => Some("Would you like to configure it? [yes/no]"@),
        ValidityStep::AskContinueOutdated => Some("Would you like to continue? [yes/no]"@),
        ValidityStep::AskReconfigure => Some(
            "Would you like to re-configure the profile? [yes/no]"@,
        ),
        ValidityStep::AskConfigureProfile => Some(
            "Would you like to configure the profile? [yes/no]"@,
        ),
        _ => None,
    }
}

impl ValidityStep {
    /// The first step of the check of a credentials file.
    pub fn start(file_exists: bool, age: &FileAge) -> (s: ValidityStep)
        ensures
            s == validity_start_spec(file_exists, *age),
    {
        if !file_exists {
            ValidityStep::AskConfigureMissing
        } else if age.is_older_than(CREDENTIALS_MAX_AGE_SECS) {
            ValidityStep::AskContinueOutdated
        } else {
            ValidityStep::CheckProfile
        }
    }

    /// The step that follows this one once `event` is known; a step that does
    /// not wait for the event stays as it is.
    pub fn next(self, event: ValidityEvent) -> (s: ValidityStep)
        ensures
            s == validity_next_spec(self, event),
    {
        match event {
            ValidityEvent::Answer(a) => {
                let no = str_equals(a.as_str(), "no");
                proof {
                    reveal_strlit("no");
                    assert("no"@ =~= seq!['n', 'o']);
                }
                match self {
                    ValidityStep::AskConfigureMissing => if no {
                        ValidityStep::Exit(1)
                    } else {
                        ValidityStep::Configure
                    },
                    ValidityStep::AskContinueOutdated => if no {
                        ValidityStep::Finish(false)
                    } else {
                        ValidityStep::AskReconfigure
                    },
                    ValidityStep::AskReconfigure => if no {
                        ValidityStep::Finish(true)
                    } else {
                        ValidityStep::Configure
                    },
                    ValidityStep::AskConfigureProfile => if no {
                        ValidityStep::Finish(false)
                    } else {
                        ValidityStep::Configure
                    },
                    _ => self,
                }
            },
            ValidityEvent::ProfilePresent(present) => match self {
                ValidityStep::CheckProfile => if present {
                    ValidityStep::Finish(true)
                } else {
                    ValidityStep::AskConfigureProfile
                },
                _ => self,
            },
            ValidityEvent::Configured => match self {
                ValidityStep::Configure => ValidityStep::Finish(true),
                _ => self,
            },
        }
    }

    /// The yes/no question asked at this step, if it asks one.
    pub fn question(&self) -> (q: Option<&'static str>)
        ensures
            match q {
                Some(t) => validity_question_spec(*self) == Some(t@),
                None => validity_question_spec(*self) is None,
            },
    {
        match self {
            ValidityStep::AskConfigureMissing => Some("Would you like to configure it? [yes/no]"),
            ValidityStep::AskContinueOutdated => Some("Would you like to continue? [yes/no]"),
            ValidityStep::AskReconfigure => Some(
                "Would you like to re-configure the profile? [yes/no]",
            ),
            ValidityStep::AskConfigureProfile => Some(
                "Would you like to configure the profile? [yes/no]",
            ),
            _ => None,
        }
    }
}

/// The check never asks more than two questions and never configures twice:
/// from any start, after an answer to every question it reaches a final step
/// within three events.
pub proof fn lemma_validity_terminates(file_exists: bool, age: FileAge, a1: String, a2: String, present: bool)
    ensures
        ({
            let s0 = validity_start_spec(file_exists, age);
            let s1 = match s0 {
                ValidityStep::CheckProfile => validity_next_spec(s0, ValidityEvent::ProfilePresent(present)),
                _ => validity_next_spec(s0, ValidityEvent::Answer(a1)),
            };
            let s2 = match s1 {
                ValidityStep::Configure => validity_next_spec(s1, ValidityEvent::Configured),
                _ => validity_next_spec(s1, ValidityEvent::Answer(a2)),
            };
            let s3 = match s2 {
                ValidityStep::Configure => validity_next_spec(s2, ValidityEvent::Configured),
                _ => s2,
            };
            s3 matches ValidityStep::Finish(_) || s3 matches ValidityStep::Exit(_)
        }),
{
}

/// A file that is missing asks to be configured; an existing file asks
/// whether to go on exactly when it is more than six hours (21600 seconds)
/// old, and is otherwise looked up for the profile.
pub proof fn lemma_validity_start_by_age(file_exists: bool, age: FileAge)
    requires
        age.age_duration.nanos < 1_000_000_000,
    ensures
        !file_exists ==> validity_start_spec(file_exists, age) == ValidityStep::AskConfigureMissing,
        file_exists && age.age_duration.secs * 1_000_000_000 + age.age_duration.nanos
            <= 21600 * 1_000_000_000 ==> validity_start_spec(file_exists, age)
            == ValidityStep::CheckProfile,
        file_exists && age.age_duration.secs * 1_000_000_000 + age.age_duration.nanos > 21600
            * 1_000_000_000 ==> validity_start_spec(file_exists, age)
            == ValidityStep::AskContinueOutdated,
{
}

/// The answers to the questions: any answer but `no` to a question about
/// configuring leads to configuring, and to the question about continuing it
/// leads to the question about reconfiguring; `no` exits when the file is
/// missing, gives up on outdated credentials or a missing profile, and keeps
/// outdated credentials that the user declines to reconfigure. Only the
/// profile's presence, a configuration or that refusal end the check with
/// usable credentials.
pub proof fn lemma_validity_answers(a: String, present: bool)
    ensures
        a@ != "no"@ ==> validity_next_spec(ValidityStep::AskConfigureMissing, ValidityEvent::Answer(a))
            == ValidityStep::Configure,
        a@ != "no"@ ==> validity_next_spec(ValidityStep::AskReconfigure, ValidityEvent::Answer(a))
            == ValidityStep::Configure,
        a@ != "no"@ ==> validity_next_spec(ValidityStep::AskConfigureProfile, ValidityEvent::Answer(a))
            == ValidityStep::Configure,
        a@ != "no"@ ==> validity_next_spec(ValidityStep::AskContinueOutdated, ValidityEvent::Answer(a))
            == ValidityStep::AskReconfigure,
        a@ == "no"@ ==> validity_next_spec(ValidityStep::AskConfigureMissing, ValidityEvent::Answer(a))
            == ValidityStep::Exit(1),
        a@ == "no"@ ==> validity_next_spec(ValidityStep::AskContinueOutdated, ValidityEvent::Answer(a))
            == ValidityStep::Finish(false),
        a@ == "no"@ ==> validity_next_spec(ValidityStep::AskReconfigure, ValidityEvent::Answer(a))
            == ValidityStep::Finish(true),
        a@ == "no"@ ==> validity_next_spec(ValidityStep::AskConfigureProfile, ValidityEvent::Answer(a))
            == ValidityStep::Finish(false),
        validity_next_spec(ValidityStep::CheckProfile, ValidityEvent::ProfilePresent(present))
            == if present {
            ValidityStep::Finish(true)
        } else {
            ValidityStep::AskConfigureProfile
        },
        validity_next_spec(ValidityStep::Configure, ValidityEvent::Configured)
            == ValidityStep::Finish(true),
        forall|s: ValidityStep, e: ValidityEvent|
            validity_next_spec(s, e) == ValidityStep::Finish(true) && !(s matches ValidityStep::Finish(_))
                ==> (s == ValidityStep::CheckProfile && e == ValidityEvent::ProfilePresent(true))
                || (s == ValidityStep::Configure && e == ValidityEvent::Configured)
                || (s == ValidityStep::AskReconfigure && (e matches ValidityEvent::Answer(x)
                && x@ == "no"@)),
{
    reveal_strlit("no");
    assert("no"@ =~= seq!['n', 'o']);
}

} // verus!
