//! Records written to the write-ahead log.

pub mod codec;
pub mod wal_type;
