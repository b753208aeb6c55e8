[package]
name = "zana"
version = "0.1.0"
edition = "2021"
publish = false

[dependencies]
configparser = "=3.3.0"
sha1 = "=0.11.0"
chrono = "=0.4.45"
serde = { version = "=1.0.229", features = ["derive"] }
serde_json = "=1.0.154"
aws-config = { version = "=1.13.0", default-features = false, features = ["rt-tokio", "sso", "behavior-version-latest"] }
aws-types = "=1.7.0"
aws-sdk-bedrock = { version = "=1.166.0", default-features = false, features = ["rt-tokio", "behavior-version-latest"] }
aws-sdk-bedrockruntime = { version = "=1.153.0", default-features = false, features = ["rt-tokio", "behavior-version-latest"] }
aws-sdk-cloudfront = { version = "=1.141.0", default-features = false, features = ["rt-tokio", "behavior-version-latest"] }
aws-sdk-costexplorer = { version = "=1.138.0", default-features = false, features = ["rt-tokio", "behavior-version-latest"] }
aws-sdk-docdb = { version = "=1.128.0", default-features = false, features = ["rt-tokio", "behavior-version-latest"] }
aws-sdk-dynamodb = { version = "=1.136.0", default-features = false, features = ["rt-tokio", "behavior-version-latest"] }
aws-sdk-glue = { version = "=1.182.0", default-features = false, features = ["rt-tokio", "behavior-version-latest"] }
aws-sdk-rds = { version = "=1.159.0", default-features = false, features = ["rt-tokio", "behavior-version-latest"] }
aws-sdk-redshift = { version = "=1.128.0", default-features = false, features = ["rt-tokio", "behavior-version-latest"] }
aws-sdk-resourceexplorer2 = { version = "=1.124.0", default-features = false, features = ["rt-tokio", "behavior-version-latest"] }
aws-sdk-s3 = { version = "=1.157.0", default-features = false, features = ["rt-tokio", "behavior-version-latest"] }
aws-sdk-secretsmanager = { version = "=1.125.0", default-features = false, features = ["rt-tokio", "behavior-version-latest"] }
aws-sdk-sso = { version = "=1.119.0", default-features = false, features = ["rt-tokio", "behavior-version-latest"] }
aws-sdk-ssooidc = { version = "=1.121.0", default-features = false, features = ["rt-tokio", "behavior-version-latest"] }
aws-sdk-sts = { version = "=1.124.0", default-features = false, features = ["rt-tokio", "behavior-version-latest"] }
tokio = { version = "=1.54.1", features = ["full"] }
clap = { version = "=4.6.7", features = ["cargo"] }
inquire = { version = "=0.9.4" }
tabled = { version = "=0.22.0" }
csv = { version = "=1.4.0" }
directories = { version = "=6.0.0" }
open = { version = "=5.4.5" }
