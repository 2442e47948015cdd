//! Backend library for a small property-management application.
//!
//! The database schema lives here as an ordered list of SQL migrations,
//! together with the checks a migration runner needs: that versions ascend,
//! and which steps are still pending at a given schema version.

pub mod greeting;
pub mod migrations;
