//! The AWS side of the tool: configuration and credentials files, SSO
//! sessions and tokens, and the records each service listing yields.
pub mod bedrock;
pub mod bedrock_runtime;
pub mod config;
pub mod cost_explorer;
pub mod credentials;
pub mod credentials_v2;
pub mod dynamodb;
pub mod glue;
pub mod rds;
pub mod redshift;
pub mod resource_explorer;
pub mod s3;
pub mod secrets_manager;
pub mod sso;
pub mod sso_oidc;
pub mod sso_token;
