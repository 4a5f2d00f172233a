//! A one-shot snapshot of a host's metrics: the data model, the collector's
//! defaults, byte counts in binary units and the console report.

use vstd::prelude::*;

pub mod error;
pub mod format;
pub mod report;
pub mod snapshot;

pub use format::format_bytes;

verus! {

} // verus!
