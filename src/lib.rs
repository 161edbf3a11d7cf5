//! Downgrades a database directory by one schema version: the storage engine
//! drops its most recent column family and the version marker is rewritten.
//!
//! The library holds the decisions and the marker's text format; the caller
//! performs the file and storage work that each step asks for.

pub mod error;
pub mod marker;
pub mod migration;
pub mod model;

pub use error::Error;

use vstd::prelude::*;

verus! {

/// The schema version of a database that still holds the newest column family.
pub const CURRENT_VERSION: u32 = 14;

/// The number of column families a database at `CURRENT_VERSION` has.
pub const CURRENT_COLUMNS: u32 = 9;

/// The schema version that a successful downgrade leaves behind.
pub const DOWNGRADE_VERSION: u32 = 13;

/// The name of the version marker file inside the database directory.
pub const VERSION_FILE_NAME: &'static str = "db_version";

/// The name of the storage engine's subdirectory inside the database directory.
pub const DATABASE_DIR_NAME: &'static str = "db";

} // verus!
