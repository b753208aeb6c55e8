use zana::aws::config::{timeout_millis, AWSCredentials, AWSCredentialsFile, AwsCliConfig};
use zana::aws::credentials::{
    load_credentials_file, profile_in_credentials, write_to_credentials_file, AwsCredentialsConfig,
    ValidityEvent, ValidityStep,
};
use zana::aws::credentials_v2::AwsCredentialsConfig as AwsCredentialsConfigV2;
use zana::utils::fileutil::{AgeDuration, FileAge};

const CREDS: &str = "[Prod]\nregion = eu-west-1\naws_access_key_id = AKIA1\naws_secret_access_key = s3cr3t\naws_session_token = tok\n\n[partial]\nregion = us-east-1\n";

#[test]
fn credentials_read_from_text() {
    let file = AWSCredentialsFile::new("/tmp/creds".to_string());
    let c = AWSCredentials::new(file, CREDS.to_string(), "prod");
    assert_eq!(c.profile, "prod");
    assert_eq!(c.region, "eu-west-1");
    assert_eq!(c.access_key_id, "AKIA1");
    assert_eq!(c.secret_access_key, "s3cr3t");
    assert_eq!(c.session_token, "tok");
}

#[test]
fn credentials_missing_values() {
    let file = AWSCredentialsFile::new("/tmp/creds".to_string());
    assert!(AWSCredentials::try_new(file, CREDS.to_string(), "partial").is_none());
    let file = AWSCredentialsFile::new("/tmp/creds".to_string());
    assert!(AWSCredentials::try_new(file, CREDS.to_string(), "absent").is_none());
    let file = AWSCredentialsFile::new("/tmp/creds".to_string());
    assert!(AWSCredentials::try_new(file, "[broken\n".to_string(), "prod").is_none());
    let c = zana::aws::credentials::AWSCredentials::try_new("/p", CREDS.to_string(), "PROD").unwrap();
    assert_eq!(c.credential_file, "/p");
    assert_eq!(c.session_token, "tok");
}

#[test]
fn credentials_file_age_recorded() {
    let mut file = AWSCredentialsFile::new("/tmp/creds".to_string());
    assert_eq!(file.age.hours, 0);
    file.set_credentials_file_age(AgeDuration { secs: 7200, nanos: 0 });
    assert_eq!(file.age.hours, 2);
    let mut cfg = AwsCredentialsConfig::new("/tmp/c");
    let age = cfg.get_credentials_file_age(AgeDuration { secs: 61, nanos: 0 });
    assert_eq!((age.minutes, age.seconds), (1, 1));
    assert_eq!(cfg.age.minutes, 1);
}

#[test]
fn cli_profile_document() {
    let cfg = AwsCliConfig::new("/home/u/.aws_sso/config");
    let (name, doc) =
        cfg.create_or_update_profile(String::new(), "123456789012", "Prod", "Admin", "https://x.awsapps.com/start", "sso-x", "eu-west-1");
    assert_eq!(name, "sso-x_Admin_Prod");
    assert_eq!(doc.get("sso-session sso-x", "sso_region").as_deref(), Some("eu-west-1"));
    assert_eq!(doc.get("sso-session sso-x", "sso_start_url").as_deref(), Some("https://x.awsapps.com/start"));
    assert_eq!(doc.get("sso-session sso-x", "sso_registration_scopes").as_deref(), Some("sso:account:access"));
    let p = "profile sso-x_Admin_Prod";
    assert_eq!(doc.get(p, "sso_session").as_deref(), Some("sso-x"));
    assert_eq!(doc.get(p, "sso_account_id").as_deref(), Some("123456789012"));
    assert_eq!(doc.get(p, "sso_role_name").as_deref(), Some("Admin"));
    assert_eq!(doc.get(p, "region").as_deref(), Some("eu-west-1"));
    assert_eq!(doc.get(p, "output").as_deref(), Some("json"));
    // section names are folded to lowercase
    assert!(doc.get_map_ref().contains_key("profile sso-x_admin_prod"));
    assert_eq!(doc.sections().len(), 2);
}

#[test]
fn cli_profile_keeps_existing_sections() {
    let cfg = AwsCliConfig::new("/home/u/.aws/config");
    let existing = "[default]\nregion = us-east-1\noutput = text\n\n[profile sso-x_Admin_Prod]\ncli_pager = less\nregion = us-west-2\n".to_string();
    let (name, doc) =
        cfg.create_or_update_profile(existing, "123456789012", "Prod", "Admin", "https://x.awsapps.com/start", "sso-x", "eu-west-1");
    assert_eq!(name, "sso-x_Admin_Prod");
    assert_eq!(doc.get("default", "region").as_deref(), Some("us-east-1"));
    assert_eq!(doc.get("default", "output").as_deref(), Some("text"));
    let p = "profile sso-x_Admin_Prod";
    assert_eq!(doc.get(p, "cli_pager").as_deref(), Some("less"));
    assert_eq!(doc.get(p, "region").as_deref(), Some("eu-west-1"));
    assert_eq!(doc.get("sso-session sso-x", "sso_region").as_deref(), Some("eu-west-1"));
    assert_eq!(doc.sections().len(), 3);
}

#[test]
fn cli_profile_on_unparsable_config_writes_the_two_sections() {
    let cfg = AwsCliConfig::new("/home/u/.aws/config");
    let broken = "[default\nregion = us-east-1\n".to_string();
    let (name, doc) = cfg.create_or_update_profile(broken, "1", "A", "R", "https://x.y", "sso-x", "eu-west-1");
    assert_eq!(name, "sso-x_R_A");
    assert_eq!(doc.sections().len(), 2);
    assert_eq!(doc.get("profile sso-x_R_A", "sso_account_id").as_deref(), Some("1"));
}

#[test]
fn create_or_update_profile_fresh_config() {
    let cfg = AwsCliConfig::new("/tmp/zana_config");
    let (name, _doc) = cfg.create_or_update_profile(
        String::new(), "123456789012", "dev", "Admin", "https://my-sso.awsapps.com/start", "sso-my-sso", "eu-west-1",
    );
    assert_eq!(name, "sso-my-sso_Admin_dev");
}

#[test]
fn validity_questions() {
    assert_eq!(ValidityStep::AskConfigureMissing.question(), Some("Would you like to configure it? [yes/no]"));
    assert_eq!(ValidityStep::AskContinueOutdated.question(), Some("Would you like to continue? [yes/no]"));
    assert_eq!(ValidityStep::AskReconfigure.question(), Some("Would you like to re-configure the profile? [yes/no]"));
    assert_eq!(ValidityStep::AskConfigureProfile.question(), Some("Would you like to configure the profile? [yes/no]"));
    assert_eq!(ValidityStep::Finish(true).question(), None);
}

#[test]
fn credentials_document_round_trip() {
    let doc = write_to_credentials_file("Dev", "eu-west-1", "123", "AKIA", "sec", "tok", -5);
    assert_eq!(doc.get("dev", "aws_account_id").as_deref(), Some("123"));
    assert_eq!(doc.get("dev", "region").as_deref(), Some("eu-west-1"));
    assert_eq!(doc.get("dev", "aws_access_key_id").as_deref(), Some("AKIA"));
    assert_eq!(doc.get("dev", "aws_secret_access_key").as_deref(), Some("sec"));
    assert_eq!(doc.get("dev", "aws_session_token").as_deref(), Some("tok"));
    assert_eq!(doc.get("dev", "expiration").as_deref(), Some("-5"));
    let v2 = AwsCredentialsConfigV2::new("/tmp/c").create_or_update_credentials("dev", "r", "a", "k", "s", "t");
    assert_eq!(v2.get("dev", "expiration"), None);
    assert_eq!(v2.get("dev", "aws_session_token").as_deref(), Some("t"));
    let text = doc.writes();
    let file = AWSCredentialsFile::new("/tmp/creds".to_string());
    let back = AWSCredentials::new(file, text, "Dev");
    assert_eq!((back.region.as_str(), back.access_key_id.as_str()), ("eu-west-1", "AKIA"));
}

#[test]
fn profile_presence_is_exact() {
    assert_eq!(profile_in_credentials(CREDS.to_string(), "prod"), Some(true));
    assert_eq!(profile_in_credentials(CREDS.to_string(), "Prod"), Some(false));
    assert_eq!(profile_in_credentials("[x\n".to_string(), "x"), None);
}

#[test]
fn validity_dialogue() {
    let young = FileAge::from_elapsed(AgeDuration { secs: 60, nanos: 0 });
    let old = FileAge::from_elapsed(AgeDuration { secs: 21601, nanos: 0 });
    let missing = ValidityStep::start(false, &young);
    assert_eq!(missing, ValidityStep::AskConfigureMissing);
    assert_eq!(missing.next(ValidityEvent::Answer("no".into())), ValidityStep::Exit(1));
    assert_eq!(missing.next(ValidityEvent::Answer("yes".into())), ValidityStep::Configure);
    let outdated = ValidityStep::start(true, &old);
    assert_eq!(outdated, ValidityStep::AskContinueOutdated);
    assert_eq!(outdated.next(ValidityEvent::Answer("no".into())), ValidityStep::Finish(false));
    let re = outdated.next(ValidityEvent::Answer("yes".into()));
    assert_eq!(re, ValidityStep::AskReconfigure);
    assert_eq!(re.next(ValidityEvent::Answer("no".into())), ValidityStep::Finish(true));
    assert_eq!(re.next(ValidityEvent::Answer("yes".into())), ValidityStep::Configure);
    let fresh = ValidityStep::start(true, &young);
    assert_eq!(fresh, ValidityStep::CheckProfile);
    assert_eq!(fresh.next(ValidityEvent::ProfilePresent(true)), ValidityStep::Finish(true));
    let ask = fresh.next(ValidityEvent::ProfilePresent(false));
    assert_eq!(ask, ValidityStep::AskConfigureProfile);
    assert_eq!(ask.next(ValidityEvent::Answer("no".into())), ValidityStep::Finish(false));
    assert_eq!(ValidityStep::Configure.next(ValidityEvent::Configured), ValidityStep::Finish(true));
    assert_eq!(ask.question(), Some("Would you like to configure the profile? [yes/no]"));
    assert_eq!(ValidityStep::Configure.question(), None);
}

#[test]
fn paths_and_timeouts() {
    assert_eq!(load_credentials_file(None, "/home/u"), "/home/u/.aws_sso/credentials");
    assert_eq!(load_credentials_file(Some("/x/y".to_string()), "/home/u"), "/x/y");
    let t = timeout_millis(10);
    assert_eq!((t.connect, t.operation, t.operation_attempt), (10, 30, 90));
}
