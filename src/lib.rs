//! Directory listing: turns what the file system reports about the children
//! of a directory into records, and records into a colored table.
pub mod text;
pub mod timestamp;
pub mod entry;
pub mod table;
pub mod report;
