use audio_stream::acquisition::{sample_rate_divisor, should_log, Acquisition, ConversionError};
use audio_stream::block::{samples_to_le_bytes, AudioBlock, BLOCK_BYTES, SAMPLES_PER_BLOCK};

fn ramp() -> [u16; SAMPLES_PER_BLOCK] {
    let mut s = [0u16; SAMPLES_PER_BLOCK];
    for (i, x) in s.iter_mut().enumerate() {
        *x = (i % 4096) as u16;
    }
    s
}

#[test]
fn new_block_is_empty() {
    let b = AudioBlock::new();
    assert!(b.samples.iter().all(|&x| x == 0));
    assert_eq!(b.block_id, 0);
    assert_eq!(b.timestamp, 0);
}

#[test]
fn samples_serialise_low_byte_first() {
    assert_eq!(samples_to_le_bytes(&[0x0abc, 0x0001, 0x0fff]), vec![0xbc, 0x0a, 0x01, 0x00, 0xff, 0x0f]);
    assert_eq!(samples_to_le_bytes(&[]), Vec::<u8>::new());
}

#[test]
fn block_bytes_cover_every_sample() {
    let mut b = AudioBlock::new();
    b.samples = ramp();
    let bytes = b.to_bytes();
    assert_eq!(bytes.len(), BLOCK_BYTES);
    for i in 0..SAMPLES_PER_BLOCK {
        assert_eq!(u16::from_le_bytes([bytes[2 * i], bytes[2 * i + 1]]), b.samples[i]);
    }
}

#[test]
fn divisor_for_target_rates() {
    assert_eq!(sample_rate_divisor(48_000_000, 44_100), 1087);
    assert_eq!(sample_rate_divisor(48_000_000, 8_000), 5999);
    assert_eq!(sample_rate_divisor(1000, 1000), 0);
}

#[test]
fn every_hundredth_block_is_logged() {
    assert!(should_log(100));
    assert!(should_log(300));
    assert!(!should_log(99));
    assert!(!should_log(101));
}

#[test]
fn first_block_gets_id_one() {
    let mut acq = Acquisition::new();
    assert_eq!(acq.last_block_id(), 0);
    let b = acq.on_conversion(Ok(()), ramp(), 1234).unwrap();
    assert_eq!(b.block_id, 1);
    assert_eq!(b.timestamp, 1234);
    assert_eq!(b.samples, ramp());
    assert_eq!(acq.last_block_id(), 1);
}

#[test]
fn failures_yield_no_block_and_keep_ids_contiguous() {
    let mut acq = Acquisition::new();
    let outcomes = [true, false, false, true, false, true, true, false, true];
    let mut ids = Vec::new();
    for (t, ok) in outcomes.iter().enumerate() {
        let outcome = if *ok { Ok(()) } else { Err(ConversionError) };
        match acq.on_conversion(outcome, [0u16; SAMPLES_PER_BLOCK], t as u64) {
            Some(b) => {
                assert!(*ok);
                ids.push(b.block_id);
            }
            None => assert!(!*ok),
        }
    }
    assert_eq!(ids, vec![1, 2, 3, 4, 5]);
    assert_eq!(acq.last_block_id(), 5);
}

#[test]
fn failed_conversion_leaves_counter() {
    let mut acq = Acquisition::new();
    assert!(acq.on_conversion(Err(ConversionError), ramp(), 5).is_none());
    assert_eq!(acq.last_block_id(), 0);
    assert!(acq.can_number());
}
