//! General helpers: file ages and date-time conversion.
pub mod common;
pub mod fileutil;
