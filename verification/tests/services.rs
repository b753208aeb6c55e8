use zana::browser::{url_entries, url_for_key};
use zana::aws::bedrock::FoundationalModelsSummary;
use zana::aws::bedrock_runtime::prompt_body;
use zana::aws::cost_explorer::{group_by, parse_granularity, Granularity, GroupKind};
use zana::aws::dynamodb::{find_key, KeyKind, KeySchemaElement, TableDescription};
use zana::aws::glue::{GlueDatabase, GlueJobBookmark, GlueTable};
use zana::aws::redshift::ClusterDescription;
use zana::aws::s3::{S3Bucket, S3ObjectVersion};
use zana::aws::secrets_manager::Secret;
use zana::browser::{is_wsl, menu_choice, url_map_line, Browser, MenuChoice, RuntimeOS};
use zana::cli::runner::{route, Route};

fn s(x: &str) -> Option<String> {
    Some(x.to_string())
}

#[test]
fn granularity_and_grouping() {
    assert_eq!(parse_granularity("Daily"), Some(Granularity::Daily));
    assert_eq!(parse_granularity("HOURLY"), Some(Granularity::Hourly));
    assert_eq!(parse_granularity("monthly"), Some(Granularity::Monthly));
    assert_eq!(parse_granularity("weekly"), None);
    let g = group_by("Tag", "team");
    assert_eq!(g.kind, Some(GroupKind::Tag));
    assert_eq!(g.key.as_deref(), Some("team"));
    let g = group_by("COSTCATEGORY", "x");
    assert_eq!(g.kind, Some(GroupKind::CostCategory));
    let none = group_by("service", "x");
    assert!(none.kind.is_none() && none.key.is_none());
}

#[test]
fn glue_records() {
    let t = GlueTable::from_parts(
        "t".into(), None, s("d"), None, s("c"), s("u"), s("l"), s("avg"), s("count"), s("size"),
    );
    assert_eq!(t.database_name, "");
    assert_eq!(t.table_record_count, "avg");
    assert_eq!(t.table_avg_record_size, "count");
    let d = GlueDatabase::from_parts("db".into(), None, s("s3://x"), s("now"));
    assert_eq!((d.db_description.as_str(), d.db_location_uri.as_str()), ("", "s3://x"));
    let b = GlueJobBookmark::from_entry(s("job"), 2, -1, 0, s("jr_1"), s("{}"));
    assert_eq!(
        b.describe(),
        "-------------------\nJob Bookmark Description\n-------------------\n \nJob Name: job\nVersion: 2\nRun: -1\nAttempt: 0\nRun ID: jr_1\nDescription: {}\n"
    );
}

#[test]
fn s3_records() {
    let b = S3Bucket::from_parts(s("b"), s("2024"), None);
    assert_eq!(b.region, "None");
    let v = S3ObjectVersion::from_parts(None, s("v1"), Some(true), s("t"), None, None, Some(None));
    assert_eq!((v.obj_key.as_str(), v.obj_size, v.obj_owner.as_str()), ("", 0, ""));
}

#[test]
fn dynamodb_description() {
    let schema = vec![
        KeySchemaElement { attribute_name: "sk".into(), key_type: KeyKind::Range },
        KeySchemaElement { attribute_name: "pk".into(), key_type: KeyKind::Hash },
        KeySchemaElement { attribute_name: "pk2".into(), key_type: KeyKind::Hash },
    ];
    assert_eq!(find_key(&schema, KeyKind::Hash), Some(1));
    assert_eq!(find_key(&schema, KeyKind::Other), None);
    let d = TableDescription::from_parts(
        s("tbl"), Some(schema), s("ACTIVE"), s("2024"), Some(5), Some(6), Some(100), Some(3),
    );
    assert_eq!((d.hash_key.as_str(), d.range_key.as_str()), ("pk", "sk"));
    assert_eq!(
        d.describe(),
        "-------------------\nTable Description\n-------------------\n \n            Table Name: tbl\nHash Key: pk\nRange Key: sk\nStatus: \n            ACTIVE\nCreation Date: 2024\nRead Capacity: 5\nWrite Capacity: \n            6\nSize: 100\nItem Count: 3"
    );
}

#[test]
fn redshift_description() {
    let c = ClusterDescription::from_cluster(
        s("c1"), s("ra3"), s("available"), s("admin"), s("dev"), s("host"), Some(5439), s("t"), Some(false),
    );
    assert_eq!(c.endpoint, "host:5439");
    assert_eq!(c.encrypted, "false");
    assert!(c.describe().contains("Endpoint: host:5439\nCreate Time: t\nIs Encrypted: false\n"));
    let last = ClusterDescription::from_clusters(vec![ClusterDescription::empty(), c]);
    assert_eq!(last.name, "c1");
    let none = ClusterDescription::from_clusters(vec![]);
    assert_eq!(none.name, "");
    assert_eq!((none.node_type.as_str(), none.status.as_str(), none.encrypted.as_str()), ("", "", ""));
}

#[test]
fn secret_record() {
    let sec = Secret::from_parts(
        s("arn"), None, None, None, None, None, None, s("changed"), None, None, None, s("created"), None,
    );
    assert_eq!(sec.rotation_enabled, "false");
    assert_eq!(sec.last_rotated_date, "N/A");
    assert_eq!(sec.last_accessed_date, "changed");
    assert_eq!(sec.deleted_date, "N/A");
    assert_eq!(sec.name, "");
}

#[test]
fn foundation_model_record() {
    let m = FoundationalModelsSummary::from_parts(
        s("Titan"), "amazon.titan".into(), s("Amazon"),
        vec!["TEXT".into(), "IMAGE".into()], vec!["TEXT".into(), "EMBEDDING".into()],
        None, vec![], vec!["ON_DEMAND".into()], s("ACTIVE"),
    );
    assert_eq!(m.input_modalities, "TEXT, IMAGE");
    assert_eq!(m.output_modalities, "TEXT,EMBEDDING");
    assert_eq!(m.response_streaming_supported, "false");
    assert_eq!(m.customizations_supported, "");
}

#[test]
fn prompt_request_body() {
    assert_eq!(prompt_body("hi").as_deref(), Some("{\"inputText\":\"hi\"}"));
    assert_eq!(prompt_body("a\"b\n").as_deref(), Some("{\"inputText\":\"a\\\"b\\n\"}"));
}

#[test]
fn browser_decisions() {
    assert!(is_wsl("5.15.90.1-microsoft-standard-WSL2"));
    assert!(!is_wsl("6.1.0-18-amd64"));
    assert_eq!(RuntimeOS::get_family(true, "linux").browser_program(), Some("wslview"));
    assert_eq!(RuntimeOS::get_family(false, "linux").browser_program(), Some("xdg-open"));
    assert_eq!(RuntimeOS::get_family(false, "macos").browser_program(), None);
    assert!(matches!(menu_choice("exit\n"), MenuChoice::Exit));
    match menu_choice("google \t\n") {
        MenuChoice::Key(k) => assert_eq!(k, "google"),
        MenuChoice::Exit => panic!("expected a key"),
    }
    assert_eq!(url_map_line("abc", "http://x"), format!("abc{}=\thttp://x", " ".repeat(17)));
    let lines = Browser {}.url_map_lines(&vec![("k".to_string(), s("u"))]);
    assert_eq!(lines.len(), 5);
    assert_eq!(lines[3], format!("k{:19}=\tu", ""));
    assert_eq!(lines[4], "");
}

#[test]
fn subcommand_routing() {
    let p = |v: &[&str]| v.iter().map(|x| x.to_string()).collect::<Vec<_>>();
    assert_eq!(route(&p(&["glue", "job", "runs", "list"])), Route::GlueJobRunsList);
    assert_eq!(route(&p(&["glue", "job", "list"])), Route::GlueJobList);
    assert_eq!(route(&p(&["glue", "job", "other"])), Route::Unreachable);
    assert_eq!(route(&p(&["glue", "table"])), Route::MissingSubcommand);
    assert_eq!(route(&p(&["s3", "objects", "versions"])), Route::S3ObjectsVersions);
    assert_eq!(route(&p(&["s3", "other"])), Route::UnknownInput);
    assert_eq!(route(&p(&["docdb", "describe-cluster"])), Route::DocDbDescribeCluster);
    assert_eq!(route(&p(&["sso", "oidc", "configure"])), Route::SsoOidcConfigure);
    assert_eq!(route(&p(&[])), Route::FaultyInput);
    assert_eq!(route(&p(&["ec2"])), Route::FaultyInput);
}

#[test]
fn url_config_entries() {
    let text = "[url]\nGoogle = https://www.google.com\nbare\n[other]\nx = y\n".to_string();
    let mut entries = url_entries(text).unwrap();
    entries.sort();
    assert_eq!(
        entries,
        vec![("bare".to_string(), None), ("google".to_string(), Some("https://www.google.com".to_string()))]
    );
    assert_eq!(url_for_key(&entries, "google"), Some(Some("https://www.google.com".to_string())));
    assert_eq!(url_for_key(&entries, "bare"), Some(None));
    assert_eq!(url_for_key(&entries, "missing"), None);
    assert!(url_entries("[other]\nx = y\n".to_string()).is_none());
    assert!(url_entries("[url\nx = y\n".to_string()).is_none());
}
