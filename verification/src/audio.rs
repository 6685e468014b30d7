//! Audio ingestion: decoding a WAV container into the pipeline's sample
//! buffer.
//!
//! The container must hold samples readable as 16-bit signed PCM.  Samples
//! are kept as raw `i16` values; a sample `s` stands for the normalized
//! amplitude `s / 32768`, so `-32768` is exactly `-1` and `32767` is just
//! under `1`.  The conversion to floating point happens only at the model
//! boundary, outside this library.
//!
//! Channel handling is deliberately crude: the interleaved sample array is
//! truncated to `len / channels` entries and *not* deinterleaved, so for
//! stereo input the first half of the raw interleaved stream is kept as it
//! stands.  A sample rate other than the model's 24 kHz is not a failure;
//! the rate is returned so the caller can warn.

use vstd::prelude::*;

verus! {

/// The bytes are not a WAV container this pipeline reads: malformed
/// header, unsupported encoding, or samples not readable as 16-bit PCM.
#[derive(Debug)]
pub struct AudioFormatError;

/// Whether `bytes` parse as a WAV container whose samples can all be read
/// as 16-bit signed PCM.
pub uninterp spec fn wav_parses(bytes: Seq<u8>) -> bool;

/// The channel count the container declares; at least one when it parses.
pub uninterp spec fn wav_channels(bytes: Seq<u8>) -> u16;

/// The sample rate the container declares.
pub uninterp spec fn wav_sample_rate(bytes: Seq<u8>) -> u32;

/// The container's raw samples, every channel interleaved, in file order.
pub uninterp spec fn wav_samples(bytes: Seq<u8>) -> Seq<i16>;

#[verifier::external_type_specification]
#[verifier::external_body]
pub struct ExHoundError(hound::Error);

/// Relies on hound: `WavReader::new` parses the container's header from the
/// byte buffer and rejects one that declares zero channels, `spec()` reports
/// the declared format, and `into_samples::<i16>()` reads every sample as
/// 16-bit signed PCM, failing on samples that cannot be read that way.  The
/// whole result is a function of the bytes alone.
#[verifier::external_body]
fn parse_wav(bytes: &[u8]) -> (r: Result<(u32, u16, Vec<i16>), hound::Error>)
    ensures
        r is Ok <==> wav_parses(bytes@),
        r is Ok ==> r->Ok_0.0 == wav_sample_rate(bytes@),
        r is Ok ==> r->Ok_0.1 == wav_channels(bytes@) && r->Ok_0.1 >= 1,
        r is Ok ==> r->Ok_0.2@ == wav_samples(bytes@),
{
    let mut cursor = std::io::Cursor::new(bytes);
    let reader = hound::WavReader::new(&mut cursor)?;
    let spec = reader.spec();
    let samples = reader.into_samples::<i16>().collect::<Result<Vec<i16>, hound::Error>>()?;
    Ok((spec.sample_rate, spec.channels, samples))
}

/// A decoded sample buffer: raw 16-bit samples after the channel cut, and
/// the format the container declared.
pub struct PcmAudio {
    pub samples: Vec<i16>,
    pub sample_rate: u32,
    pub channels: u16,
}

/// The channel cut applied to the interleaved sample array: keep the first
/// `len / channels` raw samples.
pub open spec fn spec_channel_cut(all: Seq<i16>, channels: int) -> Seq<i16> {
    all.take(all.len() as int / channels)
}

/// Decode a WAV container into the pipeline's sample buffer.
///
/// Succeeds exactly when the bytes parse as 16-bit PCM WAV; any parse
/// failure is an `AudioFormatError`.  On success the samples are the
/// interleaved array truncated to `len / channels` entries, untouched
/// otherwise, with the declared rate and channel count alongside.
pub fn convert_audio_to_pcm(audio: &[u8]) -> (r: Result<PcmAudio, AudioFormatError>)
    ensures
        r is Ok <==> wav_parses(audio@),
        r is Ok ==> (r->Ok_0).sample_rate == wav_sample_rate(audio@),
        r is Ok ==> (r->Ok_0).channels == wav_channels(audio@) && (r->Ok_0).channels >= 1,
        r is Ok ==> (r->Ok_0).samples@ == spec_channel_cut(
            wav_samples(audio@),
            wav_channels(audio@) as int,
        ),
{
    match parse_wav(audio) {
        Ok((sample_rate, channels, mut samples)) => {
            let keep: usize = samples.len() / (channels as usize);
            samples.truncate(keep);
            proof {
                assert(samples@ =~= spec_channel_cut(
                    wav_samples(audio@),
                    wav_channels(audio@) as int,
                ));
            }
            Ok(PcmAudio { samples, sample_rate, channels })
        },
        Err(_) => Err(AudioFormatError),
    }
}

} // verus!
