//! Local-to-remote synchronization pipeline for file-list manifests.
//!
//! The library holds the verified core of a background job that moves
//! locally buffered manifest files into remote object storage: the
//! remote-key and partition-key derivations, the compression step, the
//! per-file commit protocol (upload, then delete), the scheduling
//! state machine that gates the whole pipeline on node role, and the
//! calendar components extracted from timestamps.

pub mod codec;
pub mod compress;
pub mod cycle;
pub mod sched;
pub mod timeops;
