use srtify::pcm::{centis_of_frames, decode_pcm16le, wav_duration_centis, DurationError};

fn encode(samples: &[f32]) -> Vec<u8> {
    let mut out = Vec::new();
    for s in samples {
        let v = (s * 32768.0).round().clamp(-32768.0, 32767.0) as i16;
        out.extend_from_slice(&v.to_le_bytes());
    }
    out
}

fn wav_bytes(rate: u32, channels: u16, frames: u32) -> Vec<u8> {
    let data_len = frames * channels as u32 * 2;
    let mut b = Vec::new();
    b.extend_from_slice(b"RIFF");
    b.extend_from_slice(&(36 + data_len).to_le_bytes());
    b.extend_from_slice(b"WAVE");
    b.extend_from_slice(b"fmt ");
    b.extend_from_slice(&16u32.to_le_bytes());
    b.extend_from_slice(&1u16.to_le_bytes());
    b.extend_from_slice(&channels.to_le_bytes());
    b.extend_from_slice(&rate.to_le_bytes());
    b.extend_from_slice(&(rate * channels as u32 * 2).to_le_bytes());
    b.extend_from_slice(&(channels * 2).to_le_bytes());
    b.extend_from_slice(&16u16.to_le_bytes());
    b.extend_from_slice(b"data");
    b.extend_from_slice(&data_len.to_le_bytes());
    b.resize(b.len() + data_len as usize, 0);
    b
}

#[test]
fn decodes_little_endian_pairs() {
    let bytes = vec![0x00, 0x00, 0xff, 0x7f, 0x00, 0x80, 0xff, 0xff, 0x34, 0x12];
    assert_eq!(decode_pcm16le(&bytes), vec![0, 32767, -32768, -1, 0x1234]);
}

#[test]
fn trailing_odd_byte_is_dropped() {
    assert_eq!(decode_pcm16le(&vec![0x01, 0x00, 0x07]), vec![1]);
    assert_eq!(decode_pcm16le(&vec![0x07]), Vec::<i16>::new());
    assert_eq!(decode_pcm16le(&Vec::new()), Vec::<i16>::new());
}

#[test]
fn normalized_samples_round_trip() {
    let input = [0.0f32, 0.5, -0.5, 0.999, -1.0, 0.123_456, -0.000_01];
    let decoded = decode_pcm16le(&encode(&input));
    assert_eq!(decoded.len(), input.len());
    for (x, v) in input.iter().zip(decoded.iter()) {
        let back = *v as f32 / 32768.0;
        assert!((back - x).abs() <= 1.0 / 32768.0, "{} vs {}", x, back);
        assert!((-1.0..=1.0).contains(&back));
    }
}

#[test]
fn duration_of_a_two_second_mono_wav() {
    assert_eq!(wav_duration_centis(&wav_bytes(16_000, 1, 32_000)), Ok(200));
}

#[test]
fn duration_counts_frames_not_samples() {
    assert_eq!(wav_duration_centis(&wav_bytes(8_000, 2, 4_000)), Ok(50));
}

#[test]
fn duration_of_bytes_that_are_not_wav() {
    assert_eq!(wav_duration_centis(&vec![1, 2, 3, 4]), Err(DurationError::NotWav));
}

#[test]
fn duration_rounds_to_hundredths() {
    assert_eq!(centis_of_frames(16_000, 16_000), Ok(100));
    assert_eq!(centis_of_frames(1, 3), Ok(33));
    assert_eq!(centis_of_frames(1, 200), Ok(1));
    assert_eq!(centis_of_frames(1, 201), Ok(0));
    assert_eq!(centis_of_frames(5, 0), Err(DurationError::ZeroRate));
}
