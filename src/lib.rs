//! Turns directory-entry metadata into one Arrow record batch under a fixed
//! nine-column schema, and frames batches as an Arrow IPC stream.

pub mod entry;
pub mod schema;
pub mod columns;
pub mod batch;
pub mod stream;
