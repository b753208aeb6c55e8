//! The AWS credentials file and the AWS CLI config file: reading a profile's
//! credentials and building the SSO session and profile sections.
use crate::ini::{
    fold_case, ini_get, ini_lookup, ini_new, ini_parse, ini_read, ini_sections, ini_set,
    ini_set_spec, opt_view, ini_default_options,
};
use crate::text::{ascii_lower, concat2, concat3, owned};
pub use crate::utils::fileutil::{AgeDuration, FileAge};
use configparser::ini::Ini;
use vstd::prelude::*;

verus! {

/// The sections of an INI document.
pub type IniMap = Map<Seq<char>, Map<Seq<char>, Option<Seq<char>>>>;

/// The value of `key` in the profile section `profile`, with both names folded
/// as a case-insensitive `Ini` folds them.
pub open spec fn profile_value(m: IniMap, profile: Seq<char>, key: Seq<char>) -> Option<
    Seq<char>,
> {
    ini_lookup(m, fold_case(profile), fold_case(key))
}

/// The credentials file text parses, and its section `profile` holds a region,
/// an access key id, a secret access key and a session token.
pub open spec fn credentials_readable(text: Seq<char>, profile: Seq<char>) -> bool {
    &&& ini_parse(text) is Some
    &&& profile_value(ini_parse(text)->0, profile, "region"@) is Some
    &&& profile_value(ini_parse(text)->0, profile, "aws_access_key_id"@) is Some
    &&& profile_value(ini_parse(text)->0, profile, "aws_secret_access_key"@) is Some
    &&& profile_value(ini_parse(text)->0, profile, "aws_session_token"@) is Some
}

/// The value of `key` in section `profile` of the parsed credentials text.
pub open spec fn credential_of(text: Seq<char>, profile: Seq<char>, key: Seq<char>) -> Seq<char> {
    profile_value(ini_parse(text)->0, profile, key)->0
}

/// The four values a profile's credentials consist of.
pub struct ProfileCredentials {
    pub region: String,
    pub access_key_id: String,
    pub secret_access_key: String,
    pub session_token: String,
}

/// Reads the credentials of `profile` from the text of a credentials file;
/// `None` when the text does not parse or a value is missing.
pub fn read_profile_credentials(text: String, profile: &str) -> (r: Option<ProfileCredentials>)
    ensures
        r is Some <==> credentials_readable(text@, profile@),
        r matches Some(c) ==> {
            &&& c.region@ == credential_of(text@, profile@, "region"@)
            &&& c.access_key_id@ == credential_of(text@, profile@, "aws_access_key_id"@)
            &&& c.secret_access_key@ == credential_of(text@, profile@, "aws_secret_access_key"@)
            &&& c.session_token@ == credential_of(text@, profile@, "aws_session_token"@)
        },
{
    let ghost t = text@;
    let mut doc = ini_new();
    if !ini_read(&mut doc, text) {
        return None;
    }
    let region = ini_get(&doc, profile, "region");
    let access_key_id = ini_get(&doc, profile, "aws_access_key_id");
    let secret_access_key = ini_get(&doc, profile, "aws_secret_access_key");
    let session_token = ini_get(&doc, profile, "aws_session_token");
    match (region, access_key_id, secret_access_key, session_token) {
        (Some(region), Some(access_key_id), Some(secret_access_key), Some(session_token)) => {
            Some(ProfileCredentials { region, access_key_id, secret_access_key, session_token })
        },
        (region, access_key_id, secret_access_key, session_token) => {
            assert(opt_view(region) is None || opt_view(access_key_id) is None || opt_view(
                secret_access_key,
            ) is None || opt_view(session_token) is None);
            None
        },
    }
}

/// The credentials file of the tool, and the age it was last measured at.
pub struct AWSCredentialsFile {
    pub file_path: String,
    pub age: FileAge,
}

impl AWSCredentialsFile {
    pub fn new(path: String) -> (f: AWSCredentialsFile)
        ensures
            f.file_path@ == path@,
            f.age.age_duration == (AgeDuration { secs: 0, nanos: 0 }),
            f.age.hours == 0 && f.age.minutes == 0 && f.age.seconds == 0,
    {
        AWSCredentialsFile { file_path: path, age: FileAge::zero() }
    }

    /// Records the file's age, given how long ago it was last modified.
    pub fn set_credentials_file_age(&mut self, elapsed: AgeDuration)
        ensures
            final(self).age == FileAge::from_elapsed_spec(elapsed),
            final(self).file_path == old(self).file_path,
    {
        self.age = FileAge::from_elapsed(elapsed);
    }
}

/// A profile's credentials, read from the credentials file.
pub struct AWSCredentials {
    pub profile: String,
    pub region: String,
    pub access_key_id: String,
    pub secret_access_key: String,
    pub session_token: String,
}

impl AWSCredentials {
    /// The credentials of `profile` in `file`, whose text is `contents`.
    pub fn new(file: AWSCredentialsFile, contents: String, profile: &str) -> (c: AWSCredentials)
        requires
            credentials_readable(contents@, profile@),
        ensures
            c.profile@ == profile@,
            c.region@ == credential_of(contents@, profile@, "region"@),
            c.access_key_id@ == credential_of(contents@, profile@, "aws_access_key_id"@),
            c.secret_access_key@ == credential_of(contents@, profile@, "aws_secret_access_key"@),
            c.session_token@ == credential_of(contents@, profile@, "aws_session_token"@),
    {
        let creds = read_profile_credentials(contents, profile).unwrap();
        AWSCredentials {
            profile: owned(profile),
            region: creds.region,
            access_key_id: creds.access_key_id,
            secret_access_key: creds.secret_access_key,
            session_token: creds.session_token,
        }
    }

    /// The credentials of `profile` in `file`, or `None` where `new` cannot
    /// read them.
    pub fn try_new(file: AWSCredentialsFile, contents: String, profile: &str) -> (r: Option<
        AWSCredentials,
    >)
        ensures
            r is Some <==> credentials_readable(contents@, profile@),
            r matches Some(c) ==> {
                &&& c.profile@ == profile@
                &&& c.region@ == credential_of(contents@, profile@, "region"@)
                &&& c.access_key_id@ == credential_of(contents@, profile@, "aws_access_key_id"@)
                &&& c.secret_access_key@ == credential_of(
                    contents@,
                    profile@,
                    "aws_secret_access_key"@,
                )
                &&& c.session_token@ == credential_of(contents@, profile@, "aws_session_token"@)
            },
    {
        let copy = contents.clone();
        match read_profile_credentials(copy, profile) {
            Some(_) => Some(AWSCredentials::new(file, contents, profile)),
            None => None,
        }
    }
}

/// The timeouts of the SDK clients, in milliseconds, the unit the command
/// line gives its `--timeout` in.
#[derive(Debug, Clone, Copy, PartialEq, Eq, Structural)]
pub struct TimeoutMillis {
    pub connect: u64,
    pub operation: u64,
    pub operation_attempt: u64,
}

/// The timeouts for a base timeout of `timeout` milliseconds: `timeout` to
/// connect, three times it for an operation and nine times it for an
/// operation attempt; nine times it must stay in range.
pub fn timeout_millis(timeout: u64) -> (t: TimeoutMillis)
    requires
        timeout * 9 <= u64::MAX,
    ensures
        t.connect == timeout,
        t.operation == timeout * 3,
        t.operation_attempt == timeout * 3 * 3,
{
    TimeoutMillis { connect: timeout, operation: timeout * 3, operation_attempt: timeout * 3 * 3 }
}

// ---------------------------------------------------------------------------
// The AWS CLI config file
// ---------------------------------------------------------------------------

/// The name of the profile for a role in an account of an SSO session:
/// `{session_name}_{role_name}_{account_name}`.
pub open spec fn profile_name_spec(
    session_name: Seq<char>,
    role_name: Seq<char>,
    account_name: Seq<char>,
) -> Seq<char> {
    session_name + "_"@ + role_name + "_"@ + account_name
}

/// The sections `create_or_update_profile` writes: the SSO session
/// `sso-session {session_name}` with its region, start URL and scopes, and the
/// profile `profile {profile name}` with its session, account, role, region
/// and output format, each set in this order on the sections `m0` the config
/// file already holds.
pub open spec fn cli_profile_sections(
    m0: IniMap,
    account_id: Seq<char>,
    account_name: Seq<char>,
    role_name: Seq<char>,
    start_url: Seq<char>,
    session_name: Seq<char>,
    sso_region: Seq<char>,
) -> IniMap {
    let ss = fold_case("sso-session "@ + session_name);
    let ps = fold_case("profile "@ + profile_name_spec(session_name, role_name, account_name));
    let m1 = ini_set_spec(m0, ss, fold_case("sso_region"@), Some(sso_region));
    let m2 = ini_set_spec(m1, ss, fold_case("sso_start_url"@), Some(start_url));
    let m3 = ini_set_spec(m2, ss, fold_case("sso_start_url"@), Some(start_url));
    let m4 = ini_set_spec(
        m3,
        ss,
        fold_case("sso_registration_scopes"@),
        Some("sso:account:access"@),
    );
    let m5 = ini_set_spec(m4, ps, fold_case("sso_session"@), Some(session_name));
    let m6 = ini_set_spec(m5, ps, fold_case("sso_account_id"@), Some(account_id));
    let m7 = ini_set_spec(m6, ps, fold_case("sso_role_name"@), Some(role_name));
    let m8 = ini_set_spec(m7, ps, fold_case("region"@), Some(sso_region));
    ini_set_spec(m8, ps, fold_case("output"@), Some("json"@))
}

/// The sections a config file's text holds: what it parses into, or none
/// where it does not parse.
pub open spec fn existing_sections(text: Seq<char>) -> IniMap {
    match ini_parse(text) {
        Some(m) => m,
        None => Map::empty(),
    }
}

/// The AWS CLI config file (`~/.aws/config` or the tool's own).
pub struct AwsCliConfig {
    pub config_file: String,
}

impl AwsCliConfig {
    pub fn new(config_file: &str) -> (c: AwsCliConfig)
        ensures
            c.config_file@ == config_file@,
    {
        AwsCliConfig { config_file: owned(config_file) }
    }

    /// The profile name for the role and account, and the document to write
    /// back to the config file: the sections of `existing`, the file's text,
    /// with the SSO session and profile keys set on them; where `existing` does
    /// not parse, the two sections alone. An empty text has no sections.
    pub fn create_or_update_profile(
        &self,
        existing: String,
        account_id: &str,
        account_name: &str,
        role_name: &str,
        start_url: &str,
        session_name: &str,
        sso_region: &str,
    ) -> (r: (String, Ini))
        ensures
            r.0@ == profile_name_spec(session_name@, role_name@, account_name@),
            ini_default_options(r.1),
            ini_sections(r.1) == cli_profile_sections(
                existing_sections(existing@),
                account_id@,
                account_name@,
                role_name@,
                start_url@,
                session_name@,
                sso_region@,
            ),
            existing@.len() == 0 ==> ini_sections(r.1) == cli_profile_sections(
                Map::empty(),
                account_id@,
                account_name@,
                role_name@,
                start_url@,
                session_name@,
                sso_region@,
            ),
    {
        let mut config = ini_new();
        let _parsed = ini_read(&mut config, existing);
        assert(ini_sections(config) == existing_sections(existing@));
        let session_section_name = concat2("sso-session ", session_name);
        let profile_name = {
            let a = concat3(session_name, "_", role_name);
            concat3(a.as_str(), "_", account_name)
        };
        let profile_section_name = concat2("profile ", profile_name.as_str());
        ini_set(&mut config, session_section_name.as_str(), "sso_region", Some(owned(sso_region)));
        ini_set(&mut config, session_section_name.as_str(), "sso_start_url", Some(owned(start_url)));
        ini_set(&mut config, session_section_name.as_str(), "sso_start_url", Some(owned(start_url)));
        ini_set(
            &mut config,
            session_section_name.as_str(),
            "sso_registration_scopes",
            Some(owned("sso:account:access")),
        );
        ini_set(
            &mut config,
            profile_section_name.as_str(),
            "sso_session",
            Some(owned(session_name)),
        );
        ini_set(&mut config, profile_section_name.as_str(), "sso_account_id", Some(owned(account_id)));
        ini_set(&mut config, profile_section_name.as_str(), "sso_role_name", Some(owned(role_name)));
        ini_set(&mut config, profile_section_name.as_str(), "region", Some(owned(sso_region)));
        ini_set(&mut config, profile_section_name.as_str(), "output", Some(owned("json")));
        (profile_name, config)
    }
}

/// Writing a profile keeps what the config file held: every section other
/// than the SSO session and the profile is unchanged, and within those two
/// every key other than the ones written keeps its value.
pub proof fn lemma_cli_profile_keeps_sections(
    m0: IniMap,
    account_id: Seq<char>,
    account_name: Seq<char>,
    role_name: Seq<char>,
    start_url: Seq<char>,
    session_name: Seq<char>,
    sso_region: Seq<char>,
)
    ensures
        ({
            let r = cli_profile_sections(
                m0,
                account_id,
                account_name,
                role_name,
                start_url,
                session_name,
                sso_region,
            );
            let ss = fold_case("sso-session "@ + session_name);
            let ps = fold_case(
                "profile "@ + profile_name_spec(session_name, role_name, account_name),
            );
            let session_keys = set![
                fold_case("sso_region"@),
                fold_case("sso_start_url"@),
                fold_case("sso_registration_scopes"@)
            ];
            let profile_keys = set![
                fold_case("sso_session"@),
                fold_case("sso_account_id"@),
                fold_case("sso_role_name"@),
                fold_case("region"@),
                fold_case("output"@)
            ];
            &&& forall|s: Seq<char>|
                #![trigger m0.contains_key(s)]
                m0.contains_key(s) ==> r.contains_key(s)
            &&& forall|s: Seq<char>|
                #![trigger r[s]]
                m0.contains_key(s) && s != ss && s != ps ==> r[s] == m0[s]
            &&& forall|k: Seq<char>|
                #![trigger m0[ss][k]]
                m0.contains_key(ss) && m0[ss].contains_key(k) && !session_keys.contains(k) && (
                ss != ps || !profile_keys.contains(k)) ==> r[ss].contains_key(k) && r[ss][k]
                    == m0[ss][k]
            &&& forall|k: Seq<char>|
                #![trigger m0[ps][k]]
                m0.contains_key(ps) && m0[ps].contains_key(k) && !profile_keys.contains(k) && (
                ss != ps || !session_keys.contains(k)) ==> r[ps].contains_key(k) && r[ps][k]
                    == m0[ps][k]
        }),
{
}

/// A lookup after a key is set reads the value set for that key and what the
/// sections held before for any other.
proof fn lemma_lookup_after_set(m: IniMap, section: Seq<char>, key: Seq<char>, value: Option<
    Seq<char>,
>)
    ensures
        forall|s2: Seq<char>, k2: Seq<char>|
            #[trigger] ini_lookup(ini_set_spec(m, section, key, value), s2, k2) == if s2 == section
                && k2 == key {
                value
            } else {
                ini_lookup(m, s2, k2)
            },
{
}

/// A name that is lowercase ASCII is filed as it is.
proof fn lemma_fold_lower_ascii(s: Seq<char>)
    requires
        forall|i: int| 0 <= i < s.len() ==> ('a' <= #[trigger] s[i] <= 'z' || s[i] == '_'),
    ensures
        fold_case(s) == s,
{
    assert(ascii_lower(s) =~= s);
}

/// Whatever the config file held, the profile and SSO session written for an
/// account and role read back every value written for them: the profile names
/// its session, account, role, region and output format, and the session its
/// region, start URL and registration scopes.
pub proof fn lemma_cli_profile_reads_back(
    m0: IniMap,
    account_id: Seq<char>,
    account_name: Seq<char>,
    role_name: Seq<char>,
    start_url: Seq<char>,
    session_name: Seq<char>,
    sso_region: Seq<char>,
)
    ensures
        ({
            let r = cli_profile_sections(
                m0,
                account_id,
                account_name,
                role_name,
                start_url,
                session_name,
                sso_region,
            );
            let profile = "profile "@ + profile_name_spec(session_name, role_name, account_name);
            let session = "sso-session "@ + session_name;
            &&& profile_value(r, profile, "sso_session"@) == Some(session_name)
            &&& profile_value(r, profile, "sso_account_id"@) == Some(account_id)
            &&& profile_value(r, profile, "sso_role_name"@) == Some(role_name)
            &&& profile_value(r, profile, "region"@) == Some(sso_region)
            &&& profile_value(r, profile, "output"@) == Some("json"@)
            &&& profile_value(r, session, "sso_region"@) == Some(sso_region)
            &&& profile_value(r, session, "sso_start_url"@) == Some(start_url)
            &&& profile_value(r, session, "sso_registration_scopes"@) == Some(
                "sso:account:access"@,
            )
        }),
{
    reveal_strlit("sso_session");
    reveal_strlit("sso_account_id");
    reveal_strlit("sso_role_name");
    reveal_strlit("region");
    reveal_strlit("output");
    reveal_strlit("sso_region");
    reveal_strlit("sso_start_url");
    reveal_strlit("sso_registration_scopes");
    lemma_fold_lower_ascii("sso_session"@);
    lemma_fold_lower_ascii("sso_account_id"@);
    lemma_fold_lower_ascii("sso_role_name"@);
    lemma_fold_lower_ascii("region"@);
    lemma_fold_lower_ascii("output"@);
    lemma_fold_lower_ascii("sso_region"@);
    lemma_fold_lower_ascii("sso_start_url"@);
    lemma_fold_lower_ascii("sso_registration_scopes"@);
    assert("sso_session"@.len() == 11 && "sso_account_id"@.len() == 14 && "sso_role_name"@.len()
        == 13 && "region"@.len() == 6 && "output"@.len() == 6 && "sso_region"@.len() == 10
        && "sso_start_url"@.len() == 13 && "sso_registration_scopes"@.len() == 23);
    assert("region"@[0] == 'r' && "output"@[0] == 'o');
    assert("sso_role_name"@[4] == 'r' && "sso_start_url"@[4] == 's');
    let ss = fold_case("sso-session "@ + session_name);
    let ps = fold_case("profile "@ + profile_name_spec(session_name, role_name, account_name));
    let m1 = ini_set_spec(m0, ss, fold_case("sso_region"@), Some(sso_region));
    let m2 = ini_set_spec(m1, ss, fold_case("sso_start_url"@), Some(start_url));
    let m3 = ini_set_spec(m2, ss, fold_case("sso_start_url"@), Some(start_url));
    let m4 = ini_set_spec(
        m3,
        ss,
        fold_case("sso_registration_scopes"@),
        Some("sso:account:access"@),
    );
    let m5 = ini_set_spec(m4, ps, fold_case("sso_session"@), Some(session_name));
    let m6 = ini_set_spec(m5, ps, fold_case("sso_account_id"@), Some(account_id));
    let m7 = ini_set_spec(m6, ps, fold_case("sso_role_name"@), Some(role_name));
    let m8 = ini_set_spec(m7, ps, fold_case("region"@), Some(sso_region));
    lemma_lookup_after_set(m0, ss, fold_case("sso_region"@), Some(sso_region));
    lemma_lookup_after_set(m1, ss, fold_case("sso_start_url"@), Some(start_url));
    lemma_lookup_after_set(m2, ss, fold_case("sso_start_url"@), Some(start_url));
    lemma_lookup_after_set(m3, ss, fold_case("sso_registration_scopes"@), Some("sso:account:access"@));
    lemma_lookup_after_set(m4, ps, fold_case("sso_session"@), Some(session_name));
    lemma_lookup_after_set(m5, ps, fold_case("sso_account_id"@), Some(account_id));
    lemma_lookup_after_set(m6, ps, fold_case("sso_role_name"@), Some(role_name));
    lemma_lookup_after_set(m7, ps, fold_case("region"@), Some(sso_region));
    lemma_lookup_after_set(m8, ps, fold_case("output"@), Some("json"@));
}

} // verus!
