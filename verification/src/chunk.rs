//! Padding and framing of a sample buffer.
//!
//! Before the samples are fed to the recognition model they are padded:
//! leading silence stabilizes the model's initial state, and trailing
//! silence — the model's look-ahead delay plus one extra full second —
//! flushes its internal buffer so trailing words are not lost.  The padded
//! buffer is then split into consecutive frames of exactly `FRAME_SIZE`
//! samples, the last frame zero-padded to full size.

use vstd::prelude::*;

use crate::FRAME_SIZE;
use crate::SAMPLE_RATE;
use crate::spec_frame_count;

verus! {

/// Padding lengths, in samples at 24 kHz, fixed at model construction.
///
/// Callers derive them from the model configuration's seconds values:
/// `seconds * 24000`, truncated to an integer.
pub struct TimingConfig {
    pub silence_prefix_samples: usize,
    pub model_delay_samples: usize,
}

/// `n` samples of silence.
pub open spec fn spec_zeros(n: nat) -> Seq<i16> {
    Seq::new(n, |i: int| 0i16)
}

/// Trailing padding: the model delay plus one extra full second.
pub open spec fn spec_suffix_samples(model_delay_samples: nat) -> nat {
    model_delay_samples + (SAMPLE_RATE as nat)
}

/// The sample buffer as the model sees it: leading silence, the samples,
/// trailing silence.
pub open spec fn spec_padded(samples: Seq<i16>, prefix: nat, suffix: nat) -> Seq<i16> {
    spec_zeros(prefix) + samples + spec_zeros(suffix)
}

/// The frames cut from a padded buffer: `spec_frame_count` of them, each
/// exactly `FRAME_SIZE` long, reading the buffer left to right and zero
/// beyond its end.
pub open spec fn frames_of(padded: Seq<i16>) -> Seq<Seq<i16>> {
    Seq::new(
        spec_frame_count(padded.len() as int) as nat,
        |i: int|
            Seq::new(
                FRAME_SIZE as nat,
                |j: int|
                    if i * (FRAME_SIZE as int) + j < padded.len() {
                        padded[i * (FRAME_SIZE as int) + j]
                    } else {
                        0i16
                    },
            ),
    )
}

/// Pad a sample buffer and split it into model frames.
///
/// The number of frames equals the padded length divided by `FRAME_SIZE`,
/// rounded up; every frame is full size, the final partial frame zero-padded.
pub fn frame_chunks(samples: &Vec<i16>, cfg: &TimingConfig) -> (frames: Vec<Vec<i16>>)
    requires
        cfg.silence_prefix_samples + samples@.len() + cfg.model_delay_samples + SAMPLE_RATE
            + FRAME_SIZE <= usize::MAX,
    ensures
        frames@.map_values(|f: Vec<i16>| f@) == frames_of(
            spec_padded(
                samples@,
                cfg.silence_prefix_samples as nat,
                spec_suffix_samples(cfg.model_delay_samples as nat),
            ),
        ),
{
    let prefix: usize = cfg.silence_prefix_samples;
    let suffix: usize = cfg.model_delay_samples + SAMPLE_RATE;
    let total: usize = prefix + samples.len() + suffix;
    let ghost padded_spec: Seq<i16> = spec_padded(
        samples@,
        prefix as nat,
        spec_suffix_samples(cfg.model_delay_samples as nat),
    );
    proof {
        assert(padded_spec.len() == total);
    }

    let mut padded: Vec<i16> = Vec::new();
    let mut pos: usize = 0;
    while pos < total
        invariant
            pos <= total,
            total == padded_spec.len(),
            prefix + samples@.len() + suffix == total,
            padded_spec == spec_padded(
                samples@,
                prefix as nat,
                spec_suffix_samples((suffix - SAMPLE_RATE) as nat),
            ),
            padded@.len() == pos,
            forall|k: int| 0 <= k < pos ==> padded@[k] == padded_spec[k],
        decreases total - pos,
    {
        if pos < prefix {
            padded.push(0i16);
        } else if pos - prefix < samples.len() {
            padded.push(samples[pos - prefix]);
        } else {
            padded.push(0i16);
        }
        pos = pos + 1;
    }
    proof {
        assert(padded@ =~= padded_spec);
    }

    let nframes: usize = total / FRAME_SIZE + (if total % FRAME_SIZE != 0 {
        1
    } else {
        0
    });
    proof {
        assert(nframes == spec_frame_count(total as int));
        assert(nframes * FRAME_SIZE <= total + FRAME_SIZE) by (nonlinear_arith)
            requires
                nframes == spec_frame_count(total as int),
                FRAME_SIZE == 1920,
        ;
    }

    let mut frames: Vec<Vec<i16>> = Vec::new();
    let mut f: usize = 0;
    while f < nframes
        invariant
            f <= nframes,
            nframes == spec_frame_count(padded@.len() as int),
            nframes * FRAME_SIZE <= usize::MAX,
            padded@ == padded_spec,
            frames@.len() == f,
            forall|i: int| 0 <= i < f ==> (#[trigger] frames@[i])@ == frames_of(padded_spec)[i],
        decreases nframes - f,
    {
        let mut frame: Vec<i16> = Vec::new();
        let base: usize = f * FRAME_SIZE;
        proof {
            assert(base + FRAME_SIZE <= nframes * FRAME_SIZE) by (nonlinear_arith)
                requires
                    base == f * FRAME_SIZE,
                    f < nframes,
            ;
        }
        let mut j: usize = 0;
        while j < FRAME_SIZE
            invariant
                j <= FRAME_SIZE,
                base == f * FRAME_SIZE,
                base + FRAME_SIZE <= usize::MAX,
                padded@ == padded_spec,
                frame@.len() == j,
                forall|k: int|
                    0 <= k < j ==> frame@[k] == (if (base + k) < padded_spec.len() {
                        padded_spec[base + k]
                    } else {
                        0i16
                    }),
            decreases FRAME_SIZE - j,
        {
            let p: usize = base + j;
            if p < padded.len() {
                let v = padded[p];
                frame.push(v);
            } else {
                frame.push(0i16);
            }
            j = j + 1;
        }
        proof {
            assert(f * (FRAME_SIZE as int) == base);
            assert(frame@ =~= frames_of(padded_spec)[f as int]);
        }
        frames.push(frame);
        f = f + 1;
    }
    proof {
        assert(frames@.map_values(|fr: Vec<i16>| fr@) =~= frames_of(padded_spec));
    }
    frames
}

/// The frame-count law: for a buffer of `n` samples the feeder produces
/// `ceil((n + prefix + suffix) / FRAME_SIZE)` frames, where the suffix is
/// the model delay plus one extra second of silence.
pub proof fn lemma_frame_count(samples: Seq<i16>, prefix: nat, model_delay: nat)
    ensures
        frames_of(spec_padded(samples, prefix, spec_suffix_samples(model_delay))).len()
            == spec_frame_count(
            samples.len() + prefix + model_delay + (SAMPLE_RATE as int),
        ),
{
    assert(spec_padded(samples, prefix, spec_suffix_samples(model_delay)).len() == samples.len()
        + prefix + model_delay + (SAMPLE_RATE as int));
}

} // verus!
