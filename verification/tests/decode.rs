use music_player::decode::{
    collect_frames, select_audio_stream, CodecResponse, DecodeError, DecodeStep, Decoder,
    DecoderAction, MediaKind, OpenError, StreamInfo,
};
use music_player::frame::DecodedFrame;
use music_player::sample::SampleFormat;

fn stream(index: usize, kind: MediaKind) -> StreamInfo {
    StreamInfo {
        index,
        kind,
        sample_rate: 44100,
        channel_count: 2,
        sample_format: SampleFormat::I16,
    }
}

fn sound_frame(tag: u8) -> DecodedFrame {
    DecodedFrame {
        data: vec![tag, 0x00],
        channel_count: 1,
        sample_format: SampleFormat::I16,
        sample_rate: 44100,
        sample_count: 1,
        packed: true,
        is_corrupt: false,
    }
}

fn corrupt_frame() -> DecodedFrame {
    let mut f = sound_frame(0);
    f.is_corrupt = true;
    f
}

#[test]
fn selects_first_audio_stream() {
    let streams = vec![
        stream(0, MediaKind::Video),
        stream(1, MediaKind::Audio),
        stream(2, MediaKind::Audio),
    ];
    assert_eq!(select_audio_stream(&streams), Ok(1));
    let d = Decoder::open(&streams).unwrap();
    assert_eq!(d.stream_index(), 1);
}

#[test]
fn no_audio_stream_is_an_open_error() {
    let streams = vec![stream(0, MediaKind::Video), stream(1, MediaKind::Subtitle)];
    assert_eq!(select_audio_stream(&streams), Err(OpenError::NoAudioStream));
    assert!(matches!(Decoder::open(&streams), Err(OpenError::NoAudioStream)));
    let empty: Vec<StreamInfo> = Vec::new();
    assert!(matches!(Decoder::open(&empty), Err(OpenError::NoAudioStream)));
}

#[test]
fn wants_only_packets_of_its_stream() {
    let streams = vec![stream(0, MediaKind::Video), stream(1, MediaKind::Audio)];
    let d = Decoder::open(&streams).unwrap();
    assert!(d.wants_packet(1));
    assert!(!d.wants_packet(0));
    assert!(!d.wants_packet(2));
}

#[test]
fn flush_pass_follows_end_of_input() {
    let streams = vec![stream(0, MediaKind::Audio)];
    let mut d = Decoder::open(&streams).unwrap();
    assert_eq!(d.next_action(), DecoderAction::SendPacket);
    d.on_end_of_input();
    assert_eq!(d.next_action(), DecoderAction::SendFlush);
    assert!(!d.wants_packet(0));
    let step = d.on_response(CodecResponse::Flushed);
    assert!(matches!(step, DecodeStep::End));
    assert_eq!(d.next_action(), DecoderAction::Stop);
}

#[test]
fn corrupt_frame_surfaces_and_poisons_the_context() {
    let streams = vec![stream(0, MediaKind::Audio)];
    let mut d = Decoder::open(&streams).unwrap();
    let script = vec![
        CodecResponse::Frame(sound_frame(1)),
        CodecResponse::NeedInput,
        CodecResponse::Frame(sound_frame(2)),
        CodecResponse::Frame(corrupt_frame()),
        CodecResponse::Frame(sound_frame(3)),
        CodecResponse::Frame(sound_frame(4)),
    ];
    let (frames, error) = collect_frames(&mut d, script);
    // The two sound frames before the corruption, and nothing after it.
    assert_eq!(frames.len(), 2);
    assert_eq!(frames[0].data, vec![1, 0]);
    assert_eq!(frames[1].data, vec![2, 0]);
    assert_eq!(error, Some(DecodeError::CorruptFrame));
    assert_eq!(d.next_action(), DecoderAction::Stop);
}

#[test]
fn codec_fault_ends_the_context() {
    let streams = vec![stream(0, MediaKind::Audio)];
    let mut d = Decoder::open(&streams).unwrap();
    let script = vec![CodecResponse::Frame(sound_frame(9)), CodecResponse::Fault];
    let (frames, error) = collect_frames(&mut d, script);
    assert_eq!(frames.len(), 1);
    assert_eq!(error, Some(DecodeError::CodecFault));
    assert_eq!(d.next_action(), DecoderAction::Stop);
}

#[test]
fn clean_run_collects_all_frames() {
    let streams = vec![stream(0, MediaKind::Audio)];
    let mut d = Decoder::open(&streams).unwrap();
    let script = vec![
        CodecResponse::NeedInput,
        CodecResponse::Frame(sound_frame(1)),
        CodecResponse::Frame(sound_frame(2)),
        CodecResponse::NeedInput,
        CodecResponse::Frame(sound_frame(3)),
        CodecResponse::Flushed,
    ];
    let (frames, error) = collect_frames(&mut d, script);
    assert_eq!(frames.len(), 3);
    assert_eq!(error, None);
}
