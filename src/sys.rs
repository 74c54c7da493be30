//! Point-in-time snapshots of the host's processor, memory and storage.

pub mod host;
pub mod memory;
pub mod storage;
pub mod processor;
