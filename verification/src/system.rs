//! Complete systems assembled from the chips.

pub mod mcs4;
pub mod mcs40;
pub mod protocol;
pub mod signal_trace;
