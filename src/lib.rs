//! Compilation of video operations into transcoder argument lists, and the
//! sequencing of a batch of such operations over intermediate files.

pub mod number;
pub mod params;
pub mod compile;
pub mod order;
pub mod pipeline;
