//! Audio normalization pipeline: decode a compressed audio file packet by
//! packet, downmix the interleaved frames to one averaged channel, and
//! convert the accumulated mono sequence to the fixed 16 kHz target rate
//! with fixed-size block processing.
//!
//! Samples are carried as signed 32-bit PCM words; the surrounding binary
//! converts to the floating-point form that the recognizer consumes.

use vstd::prelude::*;

pub mod demux;
pub mod downmix;
pub mod errors;
pub mod resample;

verus! {

/// The fixed output sample rate that the downstream recognizer expects.
pub const TARGET_SAMPLE_RATE: u32 = 16000;

/// Number of native-rate samples handed to the resampling filter per block.
pub const BLOCK_LEN: usize = 2048;

/// Sub-block granularity of the resampling filter: more sub-divisions trade
/// computation for quality.
pub const SUB_CHUNK_DIV: usize = 4;

} // verus!
