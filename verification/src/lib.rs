//! A verified core for a drop-in input-library shim: it identifies which
//! game executable is running, verifies host and companion files against a
//! built-in table of content fingerprints, decides which companion
//! modification libraries to request, binds once to the real system
//! library, and publishes a write-once status record for other libraries
//! in the process to read.
//!
//! The embedding code performs the reads, the loads and the exporting; the
//! modules here hold every decision, each under a proved contract.

pub mod attach;
pub mod config;
pub mod policy;
pub mod shim;
pub mod status;
pub mod verify;
pub mod versions;
