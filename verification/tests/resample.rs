use music_player::frame::DecodedFrame;
use music_player::resample::{ConvertStep, ResampleError, Resampler, SourceConfig};
use music_player::sample::{HostSampleFormat, SampleFormat};

fn source_44100_stereo() -> SourceConfig {
    SourceConfig { sample_rate: 44100, channel_count: 2, sample_format: SampleFormat::I16 }
}

fn frame(rate: u32, channels: u16, packed: bool, data: Vec<u8>) -> DecodedFrame {
    let sample_count = data.len() / (2 * channels as usize);
    DecodedFrame {
        data,
        channel_count: channels,
        sample_format: SampleFormat::I16,
        sample_rate: rate,
        sample_count,
        packed,
        is_corrupt: false,
    }
}

#[test]
fn exotic_target_format_is_unsupported_conversion() {
    let r = Resampler::new(source_44100_stereo(), 48000, 2, HostSampleFormat::U16);
    assert!(matches!(r, Err(ResampleError::UnsupportedConversion)));
    let r = Resampler::new(source_44100_stereo(), 48000, 2, HostSampleFormat::I8);
    assert!(matches!(r, Err(ResampleError::UnsupportedConversion)));
}

#[test]
fn identical_configs_pass_samples_through_unchanged() {
    let rs = Resampler::new(source_44100_stereo(), 44100, 2, HostSampleFormat::I16).unwrap();
    assert!(rs.is_identity());
    let data = vec![0x01, 0x02, 0x03, 0x04];
    let input = frame(44100, 2, true, data.clone());
    let input_samples = input.packed_samples().unwrap();
    match rs.convert(input).unwrap() {
        ConvertStep::Ready(out) => {
            assert_eq!(out.data, data);
            assert_eq!(out.samples(), input_samples);
            assert_eq!(out.channel_count, 2);
            assert_eq!(out.sample_rate, 44100);
            assert_eq!(out.pending_delay_ms, None);
        },
        ConvertStep::External(_) => panic!("identity conversion must not go external"),
    }
}

#[test]
fn planar_frame_on_identity_path_is_unpacked_output() {
    let rs = Resampler::new(source_44100_stereo(), 44100, 2, HostSampleFormat::I16).unwrap();
    let input = frame(44100, 2, false, vec![0x01, 0x02, 0x03, 0x04]);
    assert!(matches!(rs.convert(input), Err(ResampleError::UnpackedOutput)));
}

#[test]
fn differing_configs_defer_to_the_external_converter() {
    let rs = Resampler::new(source_44100_stereo(), 48000, 2, HostSampleFormat::I16).unwrap();
    assert!(!rs.is_identity());
    let input = frame(44100, 2, true, vec![0x01, 0x02, 0x03, 0x04]);
    match rs.convert(input).unwrap() {
        ConvertStep::External(f) => assert_eq!(f.sample_rate, 44100),
        ConvertStep::Ready(_) => panic!("rate change cannot be an identity conversion"),
    }
}

#[test]
fn accept_converted_validates_and_carries_delay() {
    let rs = Resampler::new(source_44100_stereo(), 48000, 2, HostSampleFormat::I16).unwrap();
    let converted = frame(48000, 2, true, vec![0x0a, 0x00, 0x0b, 0x00]);
    let out = rs.accept_converted(converted, Some(3)).unwrap();
    assert_eq!(out.sample_rate, 48000);
    assert_eq!(out.channel_count, 2);
    assert_eq!(out.pending_delay_ms, Some(3));
    assert_eq!(out.samples(), vec![0x0a, 0x0b]);
}

#[test]
fn accept_converted_refuses_planar_output() {
    let rs = Resampler::new(source_44100_stereo(), 48000, 2, HostSampleFormat::I16).unwrap();
    let converted = frame(48000, 2, false, vec![0x0a, 0x00, 0x0b, 0x00]);
    assert!(matches!(rs.accept_converted(converted, None), Err(ResampleError::UnpackedOutput)));
}

#[test]
fn accept_converted_refuses_output_off_target() {
    let rs = Resampler::new(source_44100_stereo(), 48000, 2, HostSampleFormat::I16).unwrap();
    // Still at the source rate: not the defined mapping to the target.
    let converted = frame(44100, 2, true, vec![0x0a, 0x00, 0x0b, 0x00]);
    assert!(matches!(
        rs.accept_converted(converted, None),
        Err(ResampleError::UnsupportedConversion)
    ));
}
