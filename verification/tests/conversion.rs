//! Sample-conversion behaviour against the host's own floating point.

use voice_relay::convert::{convert_voice_data, mul_gain, sample_bits};
use voice_relay::gain::GAIN_UNITY_BITS;
use voice_relay::pool::BufferPool;

fn decode_floats(bytes: &[u8]) -> Vec<f32> {
    assert_eq!(bytes.len() % 4, 0);
    let mut out = Vec::new();
    let mut i = 0;
    while i < bytes.len() {
        let w = u32::from_le_bytes([bytes[i], bytes[i + 1], bytes[i + 2], bytes[i + 3]]);
        out.push(f32::from_bits(w));
        i += 4;
    }
    out
}

fn convert(samples: &[i16], gain: f32) -> Vec<f32> {
    let mut pool = BufferPool::new();
    let data: Vec<i16> = samples.to_vec();
    let (buf, _reused) = convert_voice_data(&mut pool, &data, gain.to_bits());
    decode_floats(&buf.data)
}

#[test]
fn unity_gain_bits_are_one() {
    assert_eq!(GAIN_UNITY_BITS, 1.0f32.to_bits());
}

#[test]
fn sample_bits_matches_hardware_for_every_sample() {
    let mut s: i32 = i16::MIN as i32;
    while s <= i16::MAX as i32 {
        let v = s as i16;
        let expected = (v as f32 / 32768.0).to_bits();
        assert_eq!(sample_bits(v), expected, "sample {}", v);
        s += 1;
    }
}

#[test]
fn mul_gain_matches_hardware_multiply() {
    let samples: [i16; 9] = [0, 1, -1, 127, -128, 16384, -16384, 32767, -32768];
    let gains: [f32; 8] = [0.0, 0.25, 0.5, 1.0, 1.5, 2.0, 0.1, 1.0e-30];
    for &s in samples.iter() {
        for &g in gains.iter() {
            let a = (s as f32 / 32768.0).to_bits();
            let expected = (f32::from_bits(a) * g).to_bits();
            assert_eq!(mul_gain(a, g.to_bits()), expected, "sample {} gain {}", s, g);
        }
    }
}

#[test]
fn round_trip_recovers_samples_within_rounding() {
    let gains: [f32; 5] = [0.25, 0.5, 1.0, 1.5, 2.0];
    let mut samples: Vec<i16> = Vec::new();
    let mut s: i32 = i16::MIN as i32;
    while s <= i16::MAX as i32 {
        samples.push(s as i16);
        s += 251;
    }
    samples.push(i16::MAX);
    samples.push(i16::MIN);
    for &g in gains.iter() {
        let floats = convert(&samples, g);
        assert_eq!(floats.len(), samples.len());
        for (i, &orig) in samples.iter().enumerate() {
            let recovered = floats[i] / g;
            let expected = orig as f32 / 32768.0;
            let err = (recovered - expected).abs();
            assert!(
                err <= 2.0 * f32::EPSILON,
                "sample {} gain {}: recovered {} expected {}",
                orig,
                g,
                recovered,
                expected
            );
        }
    }
}

#[test]
fn max_sample_at_unity_gain_is_one_quantum_below_one() {
    let floats = convert(&[32767], 1.0);
    assert_eq!(floats.len(), 1);
    let v = floats[0];
    assert_eq!(v, 32767.0 / 32768.0);
    assert!(v < 1.0);
    assert!(1.0 - v <= 1.0 / 32768.0);
}

#[test]
fn empty_frame_converts_to_no_bytes() {
    let mut pool = BufferPool::new();
    let data: Vec<i16> = Vec::new();
    let (buf, reused) = convert_voice_data(&mut pool, &data, GAIN_UNITY_BITS);
    assert!(buf.data.is_empty());
    assert!(!reused);
}

#[test]
fn conversion_reuses_a_released_buffer() {
    let mut pool = BufferPool::new();
    let data: Vec<i16> = vec![5; 16];
    let (buf, reused) = convert_voice_data(&mut pool, &data, GAIN_UNITY_BITS);
    assert!(!reused);
    pool.release(buf);
    let (buf2, reused2) = convert_voice_data(&mut pool, &data, GAIN_UNITY_BITS);
    assert!(reused2);
    assert_eq!(buf2.data.len(), 64);
}
