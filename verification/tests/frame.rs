use music_player::frame::{packed_words, DecodedFrame, ResampledFrame};
use music_player::sample::SampleFormat;

fn i16_frame(data: Vec<u8>, channels: u16, sample_count: usize, packed: bool) -> DecodedFrame {
    DecodedFrame {
        data,
        channel_count: channels,
        sample_format: SampleFormat::I16,
        sample_rate: 44100,
        sample_count,
        packed,
        is_corrupt: false,
    }
}

#[test]
fn packed_words_reads_little_endian() {
    let data: Vec<u8> = vec![0x01, 0x02, 0xff, 0xff];
    assert_eq!(packed_words(&data, 2), vec![0x0201, 0xffff]);
    assert_eq!(packed_words(&data, 4), vec![0xffff0201]);
    assert_eq!(packed_words(&data, 1), vec![0x01, 0x02, 0xff, 0xff]);
}

#[test]
fn packed_words_ignores_trailing_partial_group() {
    let data: Vec<u8> = vec![0xaa, 0xbb, 0xcc];
    assert_eq!(packed_words(&data, 2), vec![0xbbaa]);
}

#[test]
fn packed_samples_views_interleaved_frame() {
    let frame = i16_frame(vec![0x01, 0x02, 0x03, 0x04], 2, 1, true);
    assert_eq!(frame.packed_samples(), Some(vec![0x0201, 0x0403]));
}

#[test]
fn packed_samples_refuses_planar_frame() {
    let frame = i16_frame(vec![0x01, 0x02, 0x03, 0x04], 2, 1, false);
    assert_eq!(frame.packed_samples(), None);
}

#[test]
fn packed_samples_refuses_mismatched_geometry() {
    // Three bytes cannot hold one interleaved stereo i16 time step.
    let frame = i16_frame(vec![0x01, 0x02, 0x03], 2, 1, true);
    assert_eq!(frame.packed_samples(), None);
    // Declared count disagrees with the buffer.
    let frame = i16_frame(vec![0x01, 0x02, 0x03, 0x04], 2, 7, true);
    assert_eq!(frame.packed_samples(), None);
}

#[test]
fn resampled_frame_samples_match_buffer() {
    let frame = ResampledFrame {
        data: vec![0x10, 0x00, 0x20, 0x00],
        channel_count: 2,
        sample_format: SampleFormat::I16,
        sample_rate: 48000,
        sample_count: 1,
        pending_delay_ms: None,
    };
    assert_eq!(frame.samples(), vec![0x10, 0x20]);
}
