//! Batch metadata inspection and stripping driven by an external metadata tool.
//!
//! The library decides everything that does not need the operating system:
//! which files are eligible, which argument vector the tool receives for each
//! policy, where a cleaned copy is written, how the tool's output becomes a
//! record, and how per-file results are gathered into a batch.
use vstd::prelude::*;

pub mod text;
pub mod paths;
pub mod exiftool;
pub mod record;
pub mod batch;

verus! {

} // verus!
