use moshi_asr::audio::convert_audio_to_pcm;

fn wav_bytes(channels: u16, sample_rate: u32, samples: &[i16]) -> Vec<u8> {
    let spec = hound::WavSpec {
        channels,
        sample_rate,
        bits_per_sample: 16,
        sample_format: hound::SampleFormat::Int,
    };
    let mut cursor = std::io::Cursor::new(Vec::new());
    {
        let mut writer = hound::WavWriter::new(&mut cursor, spec).expect("writer");
        for s in samples {
            writer.write_sample(*s).expect("sample");
        }
        writer.finalize().expect("finalize");
    }
    cursor.into_inner()
}

#[test]
fn stereo_input_is_truncated_not_deinterleaved() {
    let bytes = wav_bytes(2, 24000, &[100, 200, 300, 400]);
    let pcm = convert_audio_to_pcm(&bytes).expect("parses");
    assert_eq!(pcm.channels, 2);
    // len / channels = 4 / 2 = 2: the first two raw interleaved samples
    // are kept, not one sample per frame.
    assert_eq!(pcm.samples, vec![100, 200]);
    let floats: Vec<f32> = pcm.samples.iter().map(|s| *s as f32 / 32768.0).collect();
    assert_eq!(floats, vec![100.0 / 32768.0, 200.0 / 32768.0]);
}

#[test]
fn amplitude_mapping_extremes() {
    let bytes = wav_bytes(1, 24000, &[32767, -32768, 0]);
    let pcm = convert_audio_to_pcm(&bytes).expect("parses");
    assert_eq!(pcm.samples, vec![32767, -32768, 0]);
    let floats: Vec<f32> = pcm.samples.iter().map(|s| *s as f32 / 32768.0).collect();
    assert_eq!(floats[0], 0.999969482421875);
    assert_eq!(floats[1], -1.0);
    assert_eq!(floats[2], 0.0);
}

#[test]
fn mono_samples_come_back_unchanged() {
    let samples: Vec<i16> = vec![1, -2, 3, -4, 5];
    let bytes = wav_bytes(1, 24000, &samples);
    let pcm = convert_audio_to_pcm(&bytes).expect("parses");
    assert_eq!(pcm.samples, samples);
    assert_eq!(pcm.sample_rate, 24000);
    assert_eq!(pcm.channels, 1);
}

#[test]
fn mismatched_sample_rate_is_reported_not_rejected() {
    let bytes = wav_bytes(1, 16000, &[7, 8, 9]);
    let pcm = convert_audio_to_pcm(&bytes).expect("parses");
    assert_eq!(pcm.sample_rate, 16000);
    assert_eq!(pcm.samples, vec![7, 8, 9]);
}

#[test]
fn garbage_bytes_are_an_audio_format_error() {
    let bytes = vec![0u8, 1, 2, 3, 4, 5, 6, 7];
    assert!(convert_audio_to_pcm(&bytes).is_err());
}

#[test]
fn truncated_header_is_an_audio_format_error() {
    let good = wav_bytes(1, 24000, &[1, 2, 3]);
    let cut = &good[..20];
    assert!(convert_audio_to_pcm(cut).is_err());
}

#[test]
fn empty_input_is_an_audio_format_error() {
    assert!(convert_audio_to_pcm(&[]).is_err());
}

#[test]
fn float_format_wav_is_an_audio_format_error() {
    let spec = hound::WavSpec {
        channels: 1,
        sample_rate: 24000,
        bits_per_sample: 32,
        sample_format: hound::SampleFormat::Float,
    };
    let mut cursor = std::io::Cursor::new(Vec::new());
    {
        let mut writer = hound::WavWriter::new(&mut cursor, spec).expect("writer");
        writer.write_sample(0.5f32).expect("sample");
        writer.finalize().expect("finalize");
    }
    let bytes = cursor.into_inner();
    assert!(convert_audio_to_pcm(&bytes).is_err());
}
