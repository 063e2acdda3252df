use stt_client::error::SttError;
use stt_client::wav::{encode_wav_bytes, BITS_PER_SAMPLE, CHANNELS, MAX_SAMPLES, SAMPLE_RATE};

fn expected_header(samples: u32) -> Vec<u8> {
    let mut h: Vec<u8> = Vec::new();
    h.extend_from_slice(b"RIFF");
    h.extend_from_slice(&(36 + 2 * samples).to_le_bytes());
    h.extend_from_slice(b"WAVE");
    h.extend_from_slice(b"fmt ");
    h.extend_from_slice(&16u32.to_le_bytes());
    h.extend_from_slice(&1u16.to_le_bytes());
    h.extend_from_slice(&1u16.to_le_bytes());
    h.extend_from_slice(&16000u32.to_le_bytes());
    h.extend_from_slice(&32000u32.to_le_bytes());
    h.extend_from_slice(&2u16.to_le_bytes());
    h.extend_from_slice(&16u16.to_le_bytes());
    h.extend_from_slice(b"data");
    h.extend_from_slice(&(2 * samples).to_le_bytes());
    h
}

#[test]
fn format_constants() {
    assert_eq!(CHANNELS, 1);
    assert_eq!(SAMPLE_RATE, 16000);
    assert_eq!(BITS_PER_SAMPLE, 16);
    assert_eq!(MAX_SAMPLES, ((u32::MAX - 36) / 2) as usize);
}

#[test]
fn empty_audio_is_a_bare_header() {
    let bytes = encode_wav_bytes(&[]).unwrap();
    assert_eq!(bytes, expected_header(0));
    assert_eq!(bytes.len(), 44);
}

#[test]
fn exact_bytes_of_three_samples() {
    let bytes = encode_wav_bytes(&[0, 32767, -32767]).unwrap();
    let mut expected = expected_header(3);
    expected.extend_from_slice(&[0x00, 0x00, 0xFF, 0x7F, 0x01, 0x80]);
    assert_eq!(bytes, expected);
}

#[test]
fn extreme_samples_little_endian() {
    let bytes = encode_wav_bytes(&[i16::MIN, -1, 1, 256, -256]).unwrap();
    assert_eq!(
        &bytes[44..],
        &[0x00, 0x80, 0xFF, 0xFF, 0x01, 0x00, 0x00, 0x01, 0x00, 0xFF]
    );
}

#[test]
fn container_declares_mono_16khz_16bit_and_sample_count() {
    for n in [0usize, 1, 2, 7, 1000, 16000] {
        let samples: Vec<i16> = (0..n).map(|i| ((i * 37) % 65536) as u16 as i16).collect();
        let bytes = encode_wav_bytes(&samples).unwrap();
        assert_eq!(bytes.len(), 44 + 2 * n);
        let mut reader = hound::WavReader::new(std::io::Cursor::new(bytes)).unwrap();
        let spec = reader.spec();
        assert_eq!(spec.channels, 1);
        assert_eq!(spec.sample_rate, 16000);
        assert_eq!(spec.bits_per_sample, 16);
        assert_eq!(spec.sample_format, hound::SampleFormat::Int);
        assert_eq!(reader.len() as usize, n);
        let read: Vec<i16> = reader.samples::<i16>().map(|s| s.unwrap()).collect();
        assert_eq!(read, samples);
    }
}

#[test]
fn unit_floats_quantize_to_documented_values() {
    let quantized: Vec<i16> =
        [0.0f32, 1.0, -1.0].iter().map(|s| (s * i16::MAX as f32) as i16).collect();
    assert_eq!(quantized, vec![0, 32767, -32767]);
    let bytes = encode_wav_bytes(&quantized).unwrap();
    let mut reader = hound::WavReader::new(std::io::Cursor::new(bytes)).unwrap();
    let read: Vec<i16> = reader.samples::<i16>().map(|s| s.unwrap()).collect();
    assert_eq!(read, vec![0, 32767, -32767]);
}

#[test]
fn encoding_failure_message() {
    let error = SttError::Encoding { detail: "boom".to_string() };
    assert_eq!(error.message(), "Failed to encode WAV data: boom");
}

#[test]
fn equal_samples_give_equal_containers() {
    let samples: Vec<i16> = vec![3, -3, 16383, -16383, i16::MAX, i16::MIN];
    assert_eq!(encode_wav_bytes(&samples), encode_wav_bytes(&samples.clone()));
    assert!(encode_wav_bytes(&samples).is_ok());
}
