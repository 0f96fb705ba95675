use actura::convert::{convert_buffer, sample_to_i16};
use actura::wav::wav_spec;
use std::io::Cursor;

fn conv(x: f32) -> i16 {
    sample_to_i16(x.to_bits())
}

#[test]
fn full_scale_maps_to_the_16_bit_bounds() {
    assert_eq!(conv(1.0), 32767);
    assert_eq!(conv(-1.0), -32767);
    assert_eq!(conv(0.0), 0);
    assert_eq!(conv(-0.0), 0);
}

#[test]
fn conversion_truncates_toward_zero() {
    assert_eq!(conv(0.5), 16383);
    assert_eq!(conv(-0.5), -16383);
    assert_eq!(conv(0.25), 8191);
    assert_eq!(conv(-0.25), -8191);
    assert_eq!(conv(1.0 / 32767.0), float_path(1.0 / 32767.0));
    assert_eq!(conv(0.5 / 32767.0), 0);
    assert_eq!(conv(0.001), 32);
}

#[test]
fn out_of_range_samples_clamp() {
    assert_eq!(conv(2.0), 32767);
    assert_eq!(conv(-2.0), -32768);
    assert_eq!(conv(1.0e30), 32767);
    assert_eq!(conv(-1.0e30), -32768);
    assert_eq!(conv(f32::INFINITY), 32767);
    assert_eq!(conv(f32::NEG_INFINITY), -32768);
    assert_eq!(conv(f32::NAN), 0);
    assert_eq!(conv(f32::MIN_POSITIVE), 0);
    assert_eq!(conv(-1.0e-40), 0);
}

fn float_path(x: f32) -> i16 {
    (x * i16::MAX as f32) as i16
}

#[test]
fn conversion_matches_the_single_precision_product() {
    for k in -1200..=1200 {
        let x = k as f32 / 1000.0;
        assert_eq!(conv(x), float_path(x), "{}", x);
    }
    let mut bits: u32 = 0x3f00_0000;
    while bits < 0x3f80_0000 {
        let x = f32::from_bits(bits);
        assert_eq!(conv(x), float_path(x), "{:#x}", bits);
        assert_eq!(conv(-x), float_path(-x), "{:#x}", bits);
        bits += 7;
    }
    let mut state: u32 = 0x1234_5678;
    for _ in 0..200_000 {
        state ^= state << 13;
        state ^= state >> 17;
        state ^= state << 5;
        let x = f32::from_bits(state);
        assert_eq!(conv(x), float_path(x), "{:#x}", state);
    }
}

#[test]
fn products_that_round_up_in_single_precision() {
    assert_eq!(sample_to_i16(0x3f03_8b07), 16837);
    assert_eq!(sample_to_i16(0xbf80_0100), -32768);
    assert_eq!(float_path(f32::from_bits(0x3f03_8b07)), 16837);
    assert_eq!(float_path(f32::from_bits(0xbf80_0100)), -32768);
}

#[test]
fn buffers_convert_in_order() {
    let a: Vec<u32> = [0.5f32, -0.5, 0.0].iter().map(|x| x.to_bits()).collect();
    let b: Vec<u32> = [1.0f32, -1.0].iter().map(|x| x.to_bits()).collect();
    let mut ab = a.clone();
    ab.extend_from_slice(&b);
    let mut joined = convert_buffer(&a);
    joined.extend(convert_buffer(&b));
    assert_eq!(convert_buffer(&ab), joined);
    assert_eq!(joined, vec![16383, -16383, 0, 32767, -32767]);
    assert!(convert_buffer(&[]).is_empty());
}

#[test]
fn one_mono_buffer_round_trips_through_a_container() {
    let spec = wav_spec(1, 16000);
    let buffer: Vec<u32> = [0.5f32, -0.5, 0.0].iter().map(|x| x.to_bits()).collect();
    let mut bytes = Cursor::new(Vec::new());
    {
        let mut w = hound::WavWriter::new(&mut bytes, spec).unwrap();
        for s in convert_buffer(&buffer) {
            w.write_sample(s).unwrap();
        }
        w.finalize().unwrap();
    }
    bytes.set_position(0);
    let mut r = hound::WavReader::new(bytes).unwrap();
    let got = r.spec();
    assert_eq!(got.channels, 1);
    assert_eq!(got.sample_rate, 16000);
    assert_eq!(got.bits_per_sample, 16);
    assert_eq!(got.sample_format, hound::SampleFormat::Int);
    assert_eq!(r.len(), 3);
    let samples: Vec<i16> = r.samples::<i16>().map(|s| s.unwrap()).collect();
    assert_eq!(samples, vec![16383, -16383, 0]);
}

#[test]
fn an_empty_session_gives_a_valid_empty_container() {
    let spec = wav_spec(2, 48000);
    let mut bytes = Cursor::new(Vec::new());
    hound::WavWriter::new(&mut bytes, spec).unwrap().finalize().unwrap();
    bytes.set_position(0);
    let r = hound::WavReader::new(bytes).unwrap();
    assert_eq!(r.spec().channels, 2);
    assert_eq!(r.spec().sample_rate, 48000);
    assert_eq!(r.spec().bits_per_sample, 16);
    assert_eq!(r.len(), 0);
}

#[test]
fn wav_spec_takes_the_device_format() {
    let s = wav_spec(2, 44100);
    assert_eq!(s.channels, 2);
    assert_eq!(s.sample_rate, 44100);
    assert_eq!(s.bits_per_sample, 16);
    assert_eq!(s.sample_format, hound::SampleFormat::Int);
}
