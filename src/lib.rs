//! Eight-lane batch primitives over 128-bit AES state.

pub mod batch;
pub mod lanes;
pub mod words;

pub use batch::{
    load8, store8, xor128, xor8, Block, BlockBatch, Reg128, RegBatch, BLOCK_SIZE, LANES,
};
pub use lanes::apply8;
pub use words::{check, lane_matches_be_words};
