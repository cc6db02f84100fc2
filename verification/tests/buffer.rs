use music_player::buffer::{transfer_capacity, TransferBuffer, BASE_FRAME_SIZE, CHANNEL_LCM};
use music_player::sample::{DeviceConfig, SampleFormat};

fn test_config(sample_format: SampleFormat) -> DeviceConfig {
    DeviceConfig { sample_rate: 48000, channel_count: 2, sample_format }
}

#[test]
fn round_trip_returns_pushed_sequence_in_order() {
    let mut b = TransferBuffer::with_config(&test_config(SampleFormat::I16));
    let samples: Vec<u64> = vec![11, 22, 33, 44, 55];
    assert!(b.try_push(&samples));
    for expected in &samples {
        assert_eq!(b.pop(), *expected);
    }
    assert!(b.is_empty());
}

#[test]
fn round_trip_across_wraparound() {
    let mut b = TransferBuffer::with_config(&test_config(SampleFormat::F32));
    let cap = b.capacity();
    // Advance the cursors close to the end of the ring, then push a run
    // that wraps.
    let filler: Vec<u64> = (0..cap as u64 - 2).collect();
    assert!(b.try_push(&filler));
    for _ in 0..filler.len() {
        b.pop();
    }
    assert!(b.is_empty());
    let samples: Vec<u64> = vec![7, 8, 9, 10];
    assert!(b.try_push(&samples));
    for expected in &samples {
        assert_eq!(b.pop(), *expected);
    }
}

#[test]
fn pop_on_empty_yields_equilibrium_not_error() {
    let mut b = TransferBuffer::with_config(&test_config(SampleFormat::I32));
    assert_eq!(b.pop(), 0);
    let samples: Vec<u64> = vec![5, 6];
    assert!(b.try_push(&samples));
    assert_eq!(b.pop(), 5);
    assert_eq!(b.pop(), 6);
    // Past the available data: equilibrium again, no garbage.
    assert_eq!(b.pop(), 0);
    assert_eq!(b.pop(), 0);
    assert_eq!(b.len(), 0);
}

#[test]
fn push_refused_whole_when_capacity_insufficient() {
    let mut b = TransferBuffer::with_config(&test_config(SampleFormat::U8));
    let cap = b.capacity();
    let big: Vec<u64> = vec![1; cap - 1];
    assert!(b.try_push(&big));
    let more: Vec<u64> = vec![2, 3];
    // Two samples do not fit into one free slot: refused, not truncated.
    assert!(!b.try_push(&more));
    assert_eq!(b.len(), cap - 1);
    assert_eq!(b.free_len(), 1);
    // Draining one sample is enough: the push is accepted promptly.
    assert_eq!(b.pop(), 1);
    assert!(b.try_push(&more));
    assert_eq!(b.len(), cap);
}

#[test]
fn capacity_follows_sizing_formula() {
    assert_eq!(transfer_capacity(), BASE_FRAME_SIZE * CHANNEL_LCM);
    assert_eq!(transfer_capacity(), 55296);
    for format in [
        SampleFormat::F32,
        SampleFormat::F64,
        SampleFormat::I16,
        SampleFormat::I32,
        SampleFormat::I64,
        SampleFormat::U8,
    ] {
        let b = TransferBuffer::with_config(&test_config(format));
        assert_eq!(b.capacity(), transfer_capacity());
    }
}

#[test]
fn capacity_divisible_by_common_channel_layouts() {
    let cap = transfer_capacity();
    for channels in 1..=4usize {
        assert_eq!(cap % channels, 0);
    }
}

#[test]
fn fill_block_pops_in_order_then_silence() {
    let mut b = TransferBuffer::with_config(&test_config(SampleFormat::I16));
    let samples: Vec<u64> = vec![101, 102];
    assert!(b.try_push(&samples));
    let mut block: Vec<u64> = vec![77; 5];
    b.fill_block(&mut block);
    assert_eq!(block, vec![101, 102, 0, 0, 0]);
    assert!(b.is_empty());
}
