//! The SSO configuration as the OIDC flow reads it.
pub use crate::aws::sso::SsoConfig;
