//! Bundle Protocol version 7: blocks, endpoint identifiers,
//! timestamps and checksums.
pub mod bundle;
pub mod canonical;
pub mod crc;
pub mod dtntime;
pub mod eid;
pub mod primary;
