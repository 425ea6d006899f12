//! Metadata registry for uploaded files: authentication decisions, the
//! origin ban list, per-owner deduplication and the table layout they rest on.

pub mod lookup;
pub mod password;
pub mod records;
pub mod schema;
pub mod store;
