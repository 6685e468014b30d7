//! A streaming transcription pipeline: raw WAV bytes are decoded into a
//! sample buffer, padded and split into fixed-size frames for an external
//! streaming recognition model, and the model's per-frame messages are
//! reassembled into clean, ordered, non-duplicated words.
//!
//! The pipeline's stages, in data-flow order:
//!
//! - [`audio`] — decodes a WAV container into 16-bit samples;
//! - [`chunk`] — pads the buffer (leading silence, trailing flush) and
//!   cuts it into model frames;
//! - [`aggregator`] — the core state machine turning the model's message
//!   stream into finalized words;
//! - [`tokens`] — decodes a word's token ids to text through the external
//!   tokenizer;
//! - [`transcript`] — joins the words into the final text and names the
//!   fixed failure sentinels.
//!
//! The recognition model itself (its weights, tensors and floating-point
//! arithmetic) is an external collaborator: the host drives it frame by
//! frame and feeds its messages back into the aggregator.

pub mod aggregator;
pub mod audio;
pub mod chunk;
pub mod text;
pub mod tokens;
pub mod transcript;

use vstd::prelude::*;

verus! {

/// Number of audio samples in one model frame: 80 ms at 24 kHz.
pub const FRAME_SIZE: usize = 1920;

/// Sample rate, in samples per second, that the recognition model expects.
pub const SAMPLE_RATE: usize = 24000;

/// Number of frames needed to cover `total` samples when each frame holds
/// `FRAME_SIZE` samples and a short final frame is zero-padded to full size.
pub open spec fn spec_frame_count(total: int) -> int {
    (total + (FRAME_SIZE as int) - 1) / (FRAME_SIZE as int)
}

} // verus!
