use audio_stream::block::{samples_to_le_bytes, AudioBlock, SAMPLES_PER_BLOCK};
use audio_stream::double_buffer::HALF_LEN;
use audio_stream::handoff_queue::HandoffQueue;
use audio_stream::monitor::{success_percent, StatsReport, ThroughputMonitor, STATS_INTERVAL_US};
use audio_stream::network::HttpBuffers;
use audio_stream::transport::{LinkEvent, TransportWriter, WriterAction, WriterPhase, MAX_CHUNK};

fn block(id: u32) -> AudioBlock {
    let mut b = AudioBlock::new();
    b.block_id = id;
    for i in 0..SAMPLES_PER_BLOCK {
        b.samples[i] = ((i as u32 * 7 + id) % 4096) as u16;
    }
    b
}

fn chunk(a: WriterAction) -> Vec<u8> {
    match a {
        WriterAction::WriteChunk(c) => c,
        _ => panic!("expected a chunk write"),
    }
}

fn connected(max_chunk: usize) -> TransportWriter {
    let mut w = TransportWriter::new(max_chunk, 0);
    assert!(matches!(w.step(LinkEvent::Connected), WriterAction::TakeBlock));
    w
}

#[test]
fn percent_with_nothing_sent_is_100() {
    assert_eq!(success_percent(0, 0), 100);
}

#[test]
fn percent_three_ok_one_err_is_75() {
    assert_eq!(success_percent(3, 1), 75);
}

#[test]
fn percent_rounds_down() {
    assert_eq!(success_percent(1, 2), 33);
    assert_eq!(success_percent(0, 5), 0);
    assert_eq!(success_percent(u32::MAX, u32::MAX), 50);
}

#[test]
fn monitor_reports_once_per_interval() {
    let mut m = ThroughputMonitor::new(1_000);
    m.record_ok();
    m.record_ok();
    m.record_ok();
    m.record_err();
    assert_eq!(m.poll(1_000 + STATS_INTERVAL_US - 1), None);
    assert_eq!(
        m.poll(1_000 + STATS_INTERVAL_US),
        Some(StatsReport { ok: 3, err: 1, percent: 75 })
    );
    assert_eq!(m.poll(1_000 + STATS_INTERVAL_US + 10), None);
    assert_eq!(m.poll(500), None);
    assert_eq!(m.ok_count(), 3);
    assert_eq!(m.err_count(), 1);
}

#[test]
fn block_of_512_goes_out_as_16_chunks_of_64() {
    let b = block(1);
    let mut w = connected(MAX_CHUNK);
    let mut out = Vec::new();
    let mut a = w.step(LinkEvent::BlockTaken(b.to_bytes()));
    let mut chunks = 0;
    loop {
        match a {
            WriterAction::WriteChunk(c) => {
                assert_eq!(c.len(), 64);
                out.extend_from_slice(&c);
                chunks += 1;
                a = w.step(LinkEvent::ChunkWritten);
            }
            WriterAction::TakeBlock => break,
            WriterAction::WaitForConnection => panic!("no failure happened"),
        }
    }
    assert_eq!(chunks, 16);
    assert_eq!(out, b.to_bytes());
    assert_eq!(out.len(), 1024);
    assert_eq!(w.blocks_ok(), 1);
    assert_eq!(w.blocks_err(), 0);
    assert_eq!(w.phase(), WriterPhase::Idle);
}

#[test]
fn uneven_chunk_size_leaves_a_short_last_chunk() {
    let b = block(2);
    let mut w = connected(100);
    let mut sizes = Vec::new();
    let mut out = Vec::new();
    let mut a = w.step(LinkEvent::BlockTaken(b.to_bytes()));
    while let WriterAction::WriteChunk(c) = a {
        sizes.push(c.len());
        out.extend_from_slice(&c);
        a = w.step(LinkEvent::ChunkWritten);
    }
    assert_eq!(sizes, vec![100, 100, 100, 100, 100, 100, 100, 100, 100, 100, 24]);
    assert_eq!(out, b.to_bytes());
}

#[test]
fn writer_waits_for_a_host_first() {
    let mut w = TransportWriter::new(MAX_CHUNK, 0);
    assert_eq!(w.phase(), WriterPhase::AwaitingConnection);
    assert!(matches!(w.step(LinkEvent::ChunkWritten), WriterAction::WaitForConnection));
    assert!(matches!(w.step(LinkEvent::BlockTaken(block(1).to_bytes())), WriterAction::WaitForConnection));
    assert!(matches!(w.step(LinkEvent::Connected), WriterAction::TakeBlock));
    assert_eq!(w.phase(), WriterPhase::Idle);
}

#[test]
fn failure_mid_block_abandons_it_and_resyncs() {
    let first = block(1);
    let second = block(2);
    let mut w = connected(MAX_CHUNK);
    let c0 = chunk(w.step(LinkEvent::BlockTaken(first.to_bytes())));
    let c1 = chunk(w.step(LinkEvent::ChunkWritten));
    assert_eq!(c0, first.to_bytes()[0..64].to_vec());
    assert_eq!(c1, first.to_bytes()[64..128].to_vec());
    assert!(matches!(w.step(LinkEvent::WriteFailed), WriterAction::WaitForConnection));
    assert_eq!(w.blocks_err(), 1);
    assert_eq!(w.blocks_ok(), 0);
    assert_eq!(w.phase(), WriterPhase::AwaitingConnection);
    assert!(matches!(w.step(LinkEvent::ChunkWritten), WriterAction::WaitForConnection));
    assert!(matches!(w.step(LinkEvent::WriteFailed), WriterAction::WaitForConnection));
    assert_eq!(w.blocks_err(), 1);
    assert!(matches!(w.step(LinkEvent::Connected), WriterAction::TakeBlock));
    let fresh = chunk(w.step(LinkEvent::BlockTaken(second.to_bytes())));
    assert_eq!(fresh, second.to_bytes()[0..64].to_vec());
}

#[test]
fn counters_survive_reconnection() {
    let mut w = connected(512);
    w.step(LinkEvent::BlockTaken(block(1).to_bytes()));
    w.step(LinkEvent::ChunkWritten);
    assert!(matches!(w.step(LinkEvent::ChunkWritten), WriterAction::TakeBlock));
    w.step(LinkEvent::BlockTaken(block(2).to_bytes()));
    w.step(LinkEvent::WriteFailed);
    w.step(LinkEvent::Connected);
    assert_eq!(w.blocks_ok(), 1);
    assert_eq!(w.blocks_err(), 1);
    assert_eq!(w.poll_stats(STATS_INTERVAL_US), Some(StatsReport { ok: 1, err: 1, percent: 50 }));
    assert_eq!(w.poll_stats(STATS_INTERVAL_US + 1), None);
}

#[test]
fn lossy_half_goes_out_as_four_chunks() {
    let half: Vec<u16> = (0..HALF_LEN as u16).collect();
    let bytes = samples_to_le_bytes(&half);
    let mut w = connected(MAX_CHUNK);
    let mut out = Vec::new();
    let mut a = w.step(LinkEvent::BlockTaken(bytes.clone()));
    while let WriterAction::WriteChunk(c) = a {
        assert_eq!(c.len(), 64);
        out.extend_from_slice(&c);
        a = w.step(LinkEvent::ChunkWritten);
    }
    assert_eq!(out, bytes);
    assert_eq!(out.len(), 256);
    assert_eq!(w.blocks_ok(), 1);
}

#[test]
fn empty_payload_counts_as_sent_at_once() {
    let mut w = connected(MAX_CHUNK);
    assert!(matches!(w.step(LinkEvent::BlockTaken(Vec::new())), WriterAction::TakeBlock));
    assert_eq!(w.blocks_ok(), 1);
    assert_eq!(w.phase(), WriterPhase::Idle);
}

#[test]
fn http_buffers_start_zeroed() {
    let b = HttpBuffers::new();
    assert!(b.rx_buffer.iter().all(|&x| x == 0));
    assert!(b.tls_read_buffer.iter().all(|&x| x == 0));
    assert!(b.tls_write_buffer.iter().all(|&x| x == 0));
    let d = HttpBuffers::default();
    assert_eq!(d.rx_buffer.len(), 8192);
    assert!(d.tls_write_buffer.iter().all(|&x| x == 0));
}

#[test]
fn scenario_queue_of_four_stalls_then_each_block_goes_out_in_sixteen_chunks() {
    let mut q = HandoffQueue::new();
    for id in 1..=4 {
        assert!(q.try_push(block(id)).is_ok());
    }
    assert!(q.try_push(block(5)).is_err());
    let mut w = connected(MAX_CHUNK);
    let first = q.try_pop().unwrap();
    assert_eq!(first.block_id, 1);
    assert!(q.try_push(block(5)).is_ok());
    let mut a = w.step(LinkEvent::BlockTaken(first.to_bytes()));
    let mut chunks = Vec::new();
    while let WriterAction::WriteChunk(c) = a {
        chunks.push(c);
        a = w.step(LinkEvent::ChunkWritten);
    }
    assert_eq!(chunks.len(), 16);
    assert!(chunks.iter().all(|c| c.len() == 64));
    assert_eq!(chunks.concat(), first.to_bytes());
    assert!(matches!(a, WriterAction::TakeBlock));
}
