use zana::aws::sso::{session_name, sort_accounts, sort_roles, AccountInfo, SsoConfig};
use zana::aws::sso_token::{
    device_client_name, expires_after, poll_step, registration_expiry, token_source,
    AccessToken, AccessTokenCache, DeviceClient, PollStep, Timestamp, TokenSource,
};

#[test]
fn session_name_of_start_url() {
    assert_eq!(session_name("https://mycompany.awsapps.com/start"), "sso-mycompany");
    assert_eq!(session_name("mycompany.awsapps.com/start"), "sso-mycompany");
    assert_eq!(session_name("https://https://x.y"), "sso-x");
    assert_eq!(session_name("a.https://b.c"), "sso-a");
    assert_eq!(session_name("xhttps://y.z"), "sso-xy");
}

#[test]
fn session_name_ignores_scheme() {
    for u in ["d-1234.awsapps.com/start", "corp.example.org", "//x.y"] {
        assert_eq!(session_name(&format!("https://{}", u)), session_name(u));
    }
}

#[test]
fn sso_config_and_account_display() {
    let c = SsoConfig::new("https://x.awsapps.com/start", "eu-west-1");
    assert_eq!(c.describe(), "SSO Start URL: https://x.awsapps.com/start\nSSO Region: eu-west-1");
    let a = AccountInfo::from_listing(Some("123".to_string()), None);
    assert_eq!(a.account_name, "unknown");
    assert_eq!(a.describe(), "unknown - 123");
}

#[test]
fn accounts_sort_by_name_then_id() {
    let mk = |n: &str, i: &str| AccountInfo::from_listing(Some(i.to_string()), Some(n.to_string()));
    let mut v = vec![mk("prod", "2"), mk("dev", "9"), mk("prod", "1"), mk("Zeta", "5"), mk("dev", "10")];
    sort_accounts(&mut v);
    let got: Vec<(String, String)> =
        v.iter().map(|a| (a.account_name.clone(), a.account_id.clone())).collect();
    let mut expected = vec![
        ("prod", "2"), ("dev", "9"), ("prod", "1"), ("Zeta", "5"), ("dev", "10"),
    ]
    .into_iter()
    .map(|(a, b)| (a.to_string(), b.to_string()))
    .collect::<Vec<_>>();
    expected.sort();
    assert_eq!(got, expected);
}

#[test]
fn roles_sort_like_std() {
    let mut v: Vec<String> =
        ["ReadOnly", "Admin", "admin", "Ädmin", "Admin", ""].iter().map(|s| s.to_string()).collect();
    let mut expected = v.clone();
    expected.sort();
    sort_roles(&mut v);
    assert_eq!(v, expected);
}

fn token(expires_at: Timestamp) -> AccessToken {
    AccessToken {
        start_url: "https://x.awsapps.com/start".to_string(),
        region: "eu-west-1".to_string(),
        access_token: "a".to_string(),
        expires_at,
        device_client: DeviceClient {
            client_id: "id".to_string(),
            client_secret: "secret".to_string(),
            registration_expires_at: Timestamp { secs: 100, nanos: 0 },
        },
        refresh_token: "r".to_string(),
    }
}

#[test]
fn token_expiry_and_source() {
    let t = token(Timestamp { secs: 1000, nanos: 10 });
    assert!(!t.is_expired_at(&Timestamp { secs: 1000, nanos: 10 }));
    assert!(t.is_expired_at(&Timestamp { secs: 1000, nanos: 11 }));
    assert!(!t.is_expired_at(&Timestamp { secs: 999, nanos: 999 }));
    assert_eq!(token_source(Some(&t), &Timestamp { secs: 2000, nanos: 0 }), TokenSource::RequestNew);
    assert_eq!(token_source(Some(&t), &Timestamp { secs: 10, nanos: 0 }), TokenSource::RefreshCached);
    assert_eq!(token_source(None, &Timestamp { secs: 10, nanos: 0 }), TokenSource::RequestNew);
    assert!(t.device_client.is_expired_at(&Timestamp { secs: 101, nanos: 0 }));
    let far = token(Timestamp { secs: i64::MAX / 4, nanos: 0 });
    assert!(!far.is_expired());
    assert!(token(Timestamp { secs: 0, nanos: 0 }).is_expired());
}

#[test]
fn token_refresh_keeps_session() {
    let t = token(Timestamp { secs: 1000, nanos: 0 });
    let r = AccessToken::refreshed(t, "us-east-1".into(), "b".into(), "r2".into(), Timestamp { secs: 5, nanos: 0 });
    assert_eq!(r.start_url, "https://x.awsapps.com/start");
    assert_eq!(r.device_client.client_id, "id");
    assert_eq!((r.region.as_str(), r.access_token.as_str(), r.refresh_token.as_str()), ("us-east-1", "b", "r2"));
    assert_eq!(r.expires_at, Timestamp { secs: 5, nanos: 0 });
}

#[test]
fn authorization_loop_steps() {
    assert_eq!(poll_step(true, false, 5), PollStep::Issued);
    assert_eq!(poll_step(false, true, 5), PollStep::Rejected);
    assert_eq!(poll_step(false, false, 5), PollStep::Wait(5));
    assert_eq!(device_client_name("sso-corp"), "zana-rs-sso-corp");
}

#[test]
fn expiry_arithmetic() {
    let now = Timestamp { secs: 1_700_000_000, nanos: 42 };
    assert_eq!(expires_after(now, 28800), Some(Timestamp { secs: 1_700_028_800, nanos: 42 }));
    assert_eq!(registration_expiry(1_700_000_000), Some(Timestamp { secs: 1_700_000_000, nanos: 0 }));
    assert_eq!(registration_expiry(i64::MAX), None);
}

#[test]
fn token_cache_file_name() {
    let cache = AccessTokenCache::new("sso-mycompany", "/home/u/.aws/sso/cache");
    assert_eq!(cache.hash_key(), "7fb470b8caf019ca7d2c5aba98f63feb6f8c23c4");
    assert_eq!(cache.cache_file_name(), "7fb470b8caf019ca7d2c5aba98f63feb6f8c23c4.json");
    assert_eq!(cache.hash_key().len(), 40);
}
