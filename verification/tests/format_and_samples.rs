use dictator::audio::capture::AudioCapture;
use dictator::audio::format::{AudioFormat, CHUNK_MILLIS, RING_MILLIS};
use dictator::audio::sample::{dequantize, quantize, quantize_chunk};
use dictator::audio::wav_sink::{SampleFormat, SinkError, WavSink, WavSpec};

fn reference(sample: f32) -> i16 {
    if sample.is_nan() {
        return 0;
    }
    let scaled = (sample as f64).clamp(-1.0, 1.0) * 32767.0;
    scaled.round() as i16
}

#[test]
fn default_format_is_16_khz_mono() {
    let format = AudioFormat::default();
    assert_eq!(format.sample_rate, 16000);
    assert_eq!(format.channels, 1);
    assert_eq!(AudioFormat::BITS_PER_SAMPLE, 16);
}

#[test]
fn samples_for_duration_rounds_down() {
    let format = AudioFormat::default();
    assert_eq!(format.samples_for_duration(500), 8000);
    assert_eq!(format.samples_for_duration(60_000), 960_000);
    assert_eq!(format.samples_for_duration(0), 0);
    let cd = AudioFormat { sample_rate: 44100, channels: 2 };
    assert_eq!(cd.samples_for_duration(500), 22050);
    let odd = AudioFormat { sample_rate: 11025, channels: 1 };
    assert_eq!(odd.samples_for_duration(500), 5512);
    assert_eq!(odd.samples_for_duration(1), 11);
}

#[test]
fn plan_sizes_ring_and_chunk() {
    let plan = AudioCapture::plan(AudioFormat::default()).unwrap();
    assert_eq!(plan.sample_rate, 16000);
    assert_eq!(plan.channels, 1);
    assert_eq!(plan.ring_capacity, 960_000);
    assert_eq!(plan.chunk_size, 8000);
    assert_eq!(RING_MILLIS, 60_000);
    assert_eq!(CHUNK_MILLIS, 500);
}

#[test]
fn plan_refuses_a_format_without_samples() {
    assert!(AudioCapture::plan(AudioFormat { sample_rate: 0, channels: 1 }).is_none());
    let slow = AudioCapture::plan(AudioFormat { sample_rate: 1, channels: 1 }).unwrap();
    assert_eq!(slow.ring_capacity, 60);
    assert_eq!(slow.chunk_size, 0);
}

#[test]
fn quantize_exact_values() {
    assert_eq!(quantize(1.0f32.to_bits()), 32767);
    assert_eq!(quantize((-1.0f32).to_bits()), -32767);
    assert_eq!(quantize(0.0f32.to_bits()), 0);
    assert_eq!(quantize((-0.0f32).to_bits()), 0);
    assert_eq!(quantize(0.5f32.to_bits()), 16384);
    assert_eq!(quantize((-0.5f32).to_bits()), -16384);
    assert_eq!(quantize(0.25f32.to_bits()), 8192);
    assert_eq!(quantize(0.75f32.to_bits()), 24575);
    assert_eq!(quantize(0.125f32.to_bits()), 4096);
    assert_eq!(quantize((1.0f32 / 32767.0).to_bits()), 1);
    assert_eq!(quantize(1.0e-5f32.to_bits()), 0);
    assert_eq!(quantize(1.6e-5f32.to_bits()), 1);
}

#[test]
fn quantize_clamps_out_of_range() {
    assert_eq!(quantize(2.0f32.to_bits()), 32767);
    assert_eq!(quantize((-3.5f32).to_bits()), -32767);
    assert_eq!(quantize(f32::MAX.to_bits()), 32767);
    assert_eq!(quantize(f32::MIN.to_bits()), -32767);
    assert_eq!(quantize(f32::INFINITY.to_bits()), 32767);
    assert_eq!(quantize(f32::NEG_INFINITY.to_bits()), -32767);
}

#[test]
fn quantize_not_a_number_is_silence() {
    assert_eq!(quantize(f32::NAN.to_bits()), 0);
    assert_eq!(quantize(0x7fc0_0001), 0);
    assert_eq!(quantize(0xffff_ffff), 0);
    assert_eq!(quantize(0x7f80_0001), 0);
}

#[test]
fn quantize_tiny_and_subnormal_values() {
    assert_eq!(quantize(f32::MIN_POSITIVE.to_bits()), 0);
    assert_eq!(quantize(1), 0);
    assert_eq!(quantize(0x007f_ffff), 0);
    assert_eq!(quantize(0x8000_0001), 0);
}

#[test]
fn quantize_matches_rounding_of_the_exact_product() {
    let mut bits: u32 = 0;
    let mut checked: u32 = 0;
    loop {
        let sample = f32::from_bits(bits);
        assert_eq!(quantize(bits), reference(sample), "bits {:#010x}", bits);
        let flipped = bits ^ 0x8000_0000;
        assert_eq!(quantize(flipped), reference(f32::from_bits(flipped)), "bits {:#010x}", flipped);
        checked += 1;
        match bits.checked_add(0x0000_3fd1) {
            Some(next) if next < 0x8000_0000 => bits = next,
            _ => break,
        }
    }
    assert!(checked > 100_000);
}

#[test]
fn quantize_every_step_near_full_scale() {
    let mut bits: u32 = 0x3f7f_0000;
    while bits <= 0x3f80_0010 {
        assert_eq!(quantize(bits), reference(f32::from_bits(bits)));
        bits += 1;
    }
}

#[test]
fn quantize_is_odd_and_repeatable() {
    for k in 0..2000u32 {
        let sample = (k as f32) / 1999.0;
        let q = quantize(sample.to_bits());
        assert_eq!(quantize(sample.to_bits()), q);
        assert_eq!(quantize((-sample).to_bits()), -q);
        assert!((-32767..=32767).contains(&q));
    }
}

#[test]
fn quantize_is_within_half_a_step() {
    for k in 0..5000u32 {
        let sample = (k as f32) / 4999.0 * 2.0 - 1.0;
        let q = quantize(sample.to_bits()) as f64;
        let exact = (sample as f64) * 32767.0;
        assert!((q - exact).abs() <= 0.5);
    }
}

#[test]
fn quantize_chunk_keeps_order_and_length() {
    let samples: Vec<u32> = vec![0.0f32, 0.5, -0.5, 1.0, -1.0, 2.0].iter().map(|s| s.to_bits()).collect();
    assert_eq!(quantize_chunk(&samples), vec![0, 16384, -16384, 32767, -32767, 32767]);
    assert_eq!(quantize_chunk(&Vec::new()), Vec::<i16>::new());
}

#[test]
fn wav_spec_follows_the_format() {
    let format = AudioFormat { sample_rate: 48000, channels: 2 };
    let expected =
        WavSpec { channels: 2, sample_rate: 48000, bits_per_sample: 16, sample_format: SampleFormat::Int };
    assert_eq!(WavSink::spec_of(format), expected);
    assert_eq!(WavSink::new(format).spec(), expected);
}

#[test]
fn sink_encodes_until_finalized() {
    let mut sink = WavSink::new(AudioFormat::default());
    assert!(sink.is_open());
    let pcm = sink.write_chunk(vec![0.5f32.to_bits(), (-1.0f32).to_bits()]).unwrap();
    assert_eq!(pcm, vec![16384, -32767]);
    assert_eq!(sink.write_chunk(Vec::new()).unwrap(), Vec::<i16>::new());
    assert_eq!(sink.finalize(), Ok(()));
    assert!(!sink.is_open());
    assert_eq!(sink.write_chunk(vec![0]), Err(SinkError::Finalized));
    assert_eq!(sink.finalize(), Err(SinkError::Finalized));
}

#[test]
fn stored_values_come_back() {
    for k in -32767i32..=32767 {
        let sample = k as f32 / 32767.0;
        assert_eq!(quantize(sample.to_bits()) as i32, k);
    }
}

#[test]
fn decoding_is_the_single_precision_quotient() {
    for k in i16::MIN..=i16::MAX {
        let expected = (k as f32 / 32767.0).to_bits();
        assert_eq!(dequantize(k), expected, "k = {}", k);
    }
    assert_eq!(dequantize(0), 0);
    assert_eq!(dequantize(32767), 1.0f32.to_bits());
    assert_eq!(dequantize(-32767), (-1.0f32).to_bits());
}

#[test]
fn encoding_what_was_decoded_gives_the_value_back() {
    for k in -32767i16..=32767 {
        assert_eq!(quantize(dequantize(k)), k);
    }
    assert_eq!(quantize(dequantize(i16::MIN)), -32767);
}
