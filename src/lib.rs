//! Planning and bookkeeping for converting a disc image into a split,
//! hash-chained GOD container: payload sizing, per-part byte ranges, the
//! backward hash-chain pass, header fields and the observable progress state.

pub mod chain;
pub mod header;
pub mod pipeline;
pub mod sizing;
pub mod status;
