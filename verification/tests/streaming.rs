use chunkflow::ack::AckTracker;
use chunkflow::channel::BoundedChannel;
use chunkflow::ack::QUEUE_CAPACITY;
use chunkflow::chunk::ChunkBuffer;
use chunkflow::chunk::CHUNK_CAPACITY;
use chunkflow::codec::reassemble;
use chunkflow::codec::split_into_chunks;
use chunkflow::errors::TransportError;
use chunkflow::receiver::StreamingReceiver;
use chunkflow::sender::SenderPhase;
use chunkflow::sender::StreamingSender;
use chunkflow::stream::PayloadReader;
use chunkflow::stream::Request;

fn pattern_bytes(len: usize) -> Vec<u8> {
    let mut v = Vec::with_capacity(len);
    for i in 0..len {
        v.push((i % 251) as u8);
    }
    v
}

fn one_byte_chunk(b: u8) -> ChunkBuffer {
    let data = vec![b];
    ChunkBuffer::from_slice(&data, 1).unwrap()
}

#[test]
fn chunk_from_slice_copies_prefix() {
    let data = vec![1u8, 2, 3, 4, 5];
    let c = ChunkBuffer::from_slice(&data, 3).unwrap();
    assert_eq!(c.len(), 3);
    assert_eq!(c.as_bytes().as_slice(), &[1u8, 2, 3]);
}

#[test]
fn chunk_capacity_rejection() {
    let data = vec![7u8; 2 * CHUNK_CAPACITY];
    let r = ChunkBuffer::from_slice(&data, CHUNK_CAPACITY + 1);
    assert_eq!(r.err(), Some(TransportError::CapacityExceeded));
    let ok = ChunkBuffer::from_slice(&data, CHUNK_CAPACITY).unwrap();
    assert_eq!(ok.len(), CHUNK_CAPACITY);
}

#[test]
fn chunk_round_trip_all_lengths() {
    for len in [
        0,
        1,
        CHUNK_CAPACITY - 1,
        CHUNK_CAPACITY,
        CHUNK_CAPACITY + 1,
        10 * CHUNK_CAPACITY,
    ] {
        let data = pattern_bytes(len);
        let chunks = split_into_chunks(&data);
        for (i, c) in chunks.iter().enumerate() {
            if i + 1 < chunks.len() {
                assert_eq!(c.len(), CHUNK_CAPACITY);
            } else {
                assert!(c.len() <= CHUNK_CAPACITY);
                assert!(c.len() > 0);
            }
        }
        let back = reassemble(&chunks);
        assert_eq!(back, data);
    }
}

#[test]
fn split_chunk_count() {
    assert_eq!(split_into_chunks(&pattern_bytes(0)).len(), 0);
    assert_eq!(split_into_chunks(&pattern_bytes(1)).len(), 1);
    assert_eq!(split_into_chunks(&pattern_bytes(CHUNK_CAPACITY)).len(), 1);
    assert_eq!(split_into_chunks(&pattern_bytes(CHUNK_CAPACITY + 1)).len(), 2);
    assert_eq!(split_into_chunks(&pattern_bytes(10 * CHUNK_CAPACITY)).len(), 10);
}

#[test]
fn window_invariant_and_backpressure() {
    let mut t = AckTracker::new();
    assert!(t.can_push());
    for _ in 0..QUEUE_CAPACITY {
        assert!(t.can_push());
        t.record_push();
        assert!(t.window() as usize <= QUEUE_CAPACITY);
    }
    assert!(!t.can_push());
    assert_eq!(t.window() as usize, QUEUE_CAPACITY);
    t.record_ack(1).unwrap();
    assert!(t.can_push());
    assert_eq!(t.window() as usize, QUEUE_CAPACITY - 1);
}

#[test]
fn ack_monotone_and_idempotent() {
    let mut t = AckTracker::new();
    for _ in 0..5 {
        t.record_push();
    }
    t.record_ack(3).unwrap();
    assert_eq!(t.ack_index(), 3);
    t.record_ack(3).unwrap();
    assert_eq!(t.ack_index(), 3);
    t.record_ack(1).unwrap();
    assert_eq!(t.ack_index(), 3);
    t.record_ack(5).unwrap();
    assert_eq!(t.ack_index(), 5);
}

#[test]
fn ack_ahead_of_push_rejected() {
    let mut t = AckTracker::new();
    assert_eq!(t.record_ack(1).err(), Some(TransportError::OutOfOrderAck));
    t.record_push();
    assert_eq!(t.record_ack(2).err(), Some(TransportError::OutOfOrderAck));
    assert_eq!(t.ack_index(), 0);
}

#[test]
fn sender_no_new_publish_when_window_full() {
    let mut s = StreamingSender::new(1000);
    s.start();
    for i in 0..QUEUE_CAPACITY {
        assert!(s.wants_read());
        s.on_chunk(one_byte_chunk((i % 256) as u8));
        assert!(s.pending_chunk().is_some());
        s.on_publish_ok();
    }
    assert!(!s.wants_read());
    assert_eq!(s.push_index() as usize, QUEUE_CAPACITY);
    s.on_ack(1).unwrap();
    assert!(s.wants_read());
}

#[test]
fn sender_backpressure_retries_pending() {
    let mut s = StreamingSender::new(1000);
    s.start();
    s.on_chunk(one_byte_chunk(9));
    s.on_backpressure();
    assert!(s.pending_chunk().is_some());
    assert!(!s.wants_read());
    s.on_publish_ok();
    assert!(s.pending_chunk().is_none());
    assert!(s.wants_read());
}

#[test]
fn sender_drains_then_closes() {
    let mut s = StreamingSender::new(1000);
    s.start();
    s.on_chunk(one_byte_chunk(1));
    s.on_publish_ok();
    s.on_chunk(one_byte_chunk(2));
    s.on_publish_ok();
    assert!(s.wants_read());
    s.on_eof();
    assert_eq!(s.phase(), SenderPhase::Draining);
    s.on_ack(1).unwrap();
    assert_eq!(s.phase(), SenderPhase::Draining);
    s.on_ack(2).unwrap();
    assert_eq!(s.phase(), SenderPhase::Closed);
    assert!(s.is_closed());
}

#[test]
fn sender_eof_with_nothing_outstanding_closes() {
    let mut s = StreamingSender::new(1000);
    s.start();
    assert_eq!(s.phase(), SenderPhase::Streaming);
    s.on_eof();
    assert_eq!(s.phase(), SenderPhase::Closed);
}

#[test]
fn sender_out_of_order_ack_aborts() {
    let mut s = StreamingSender::new(1000);
    s.start();
    s.on_chunk(one_byte_chunk(1));
    s.on_publish_ok();
    assert_eq!(s.on_ack(2).err(), Some(TransportError::OutOfOrderAck));
    assert!(s.is_closed());
}

#[test]
fn sender_stall_times_out() {
    let mut s = StreamingSender::new(3);
    s.start();
    s.on_chunk(one_byte_chunk(1));
    for _ in 0..3 {
        assert!(s.on_tick_elapsed().is_ok());
    }
    assert_eq!(s.on_tick_elapsed().err(), Some(TransportError::AckTimeout));
    assert!(s.is_closed());
}

#[test]
fn sender_unblocked_tick_resets_stall() {
    let mut s = StreamingSender::new(2);
    s.start();
    s.on_chunk(one_byte_chunk(1));
    assert!(s.on_tick_elapsed().is_ok());
    assert!(s.on_tick_elapsed().is_ok());
    s.on_publish_ok();
    s.on_ack(1).unwrap();
    assert!(s.on_tick_elapsed().is_ok());
    assert!(s.on_tick_elapsed().is_ok());
    assert!(s.on_tick_elapsed().is_ok());
}

#[test]
fn sender_source_error_and_shutdown() {
    let mut s = StreamingSender::new(5);
    s.start();
    assert_eq!(s.on_source_error(), TransportError::SourceReadFailed);
    assert!(s.is_closed());
    let mut s2 = StreamingSender::new(5);
    s2.start();
    s2.on_shutdown();
    assert!(s2.is_closed());
}

#[test]
fn payload_reader_hands_out_chunks() {
    let data = pattern_bytes(2 * CHUNK_CAPACITY + 5);
    let mut r = PayloadReader::new(data.clone());
    assert_eq!(r.remaining(), 2 * CHUNK_CAPACITY + 5);
    let c1 = r.read_chunk().unwrap();
    assert_eq!(c1.len(), CHUNK_CAPACITY);
    let c2 = r.read_chunk().unwrap();
    assert_eq!(c2.len(), CHUNK_CAPACITY);
    let c3 = r.read_chunk().unwrap();
    assert_eq!(c3.len(), 5);
    assert!(r.read_chunk().is_none());
    let mut back = Vec::new();
    for c in [&c1, &c2, &c3] {
        back.extend_from_slice(c.as_bytes().as_slice());
    }
    assert_eq!(back, data);
}

#[test]
fn request_queue_capacity_rejection() {
    let mut req = Request::new(0);
    for i in 0..QUEUE_CAPACITY {
        assert!(req.push_chunk(one_byte_chunk((i % 256) as u8)).is_ok());
    }
    assert_eq!(req.queue_len(), QUEUE_CAPACITY);
    assert_eq!(
        req.push_chunk(one_byte_chunk(0)).err(),
        Some(TransportError::CapacityExceeded)
    );
    assert_eq!(req.queue_len(), QUEUE_CAPACITY);
}

#[test]
fn receiver_reassembles_and_acks() {
    let data = pattern_bytes(3 * CHUNK_CAPACITY + 7);
    let chunks = split_into_chunks(&data);
    let mut rx = StreamingReceiver::new();
    let mut sent: u64 = 0;
    for c in chunks {
        let mut req = Request::new(0);
        req.push_chunk(c).unwrap();
        let ack = rx.on_request(sent, &req).unwrap();
        sent += 1;
        assert_eq!(ack, sent);
    }
    assert_eq!(rx.chunks_received(), 4);
    assert_eq!(rx.into_payload(), data);
}

#[test]
fn receiver_batched_chunks_in_one_request() {
    let data = pattern_bytes(2 * CHUNK_CAPACITY + 1);
    let mut req = Request::new(0);
    for c in split_into_chunks(&data) {
        req.push_chunk(c).unwrap();
    }
    let mut rx = StreamingReceiver::new();
    let ack = rx.on_request(0, &req).unwrap();
    assert_eq!(ack, 3);
    assert_eq!(rx.payload().as_slice(), data.as_slice());
}

#[test]
fn receiver_rejects_sequence_gap() {
    let mut rx = StreamingReceiver::new();
    let mut req = Request::new(0);
    req.push_chunk(one_byte_chunk(1)).unwrap();
    assert_eq!(
        rx.on_request(5, &req).err(),
        Some(TransportError::SequenceGap)
    );
    assert_eq!(rx.chunks_received(), 0);
    assert_eq!(rx.payload().len(), 0);
    rx.on_request(0, &req).unwrap();
    assert_eq!(rx.chunks_received(), 1);
}

#[test]
fn bounded_channel_is_fifo_and_reports_backpressure() {
    let mut ch: BoundedChannel<u64> = BoundedChannel::new(2);
    assert!(ch.poll().is_none());
    ch.publish(10).unwrap();
    ch.publish(20).unwrap();
    assert_eq!(ch.publish(30).err(), Some(TransportError::Backpressure));
    assert_eq!(ch.len(), 2);
    assert_eq!(ch.poll(), Some(10));
    ch.publish(30).unwrap();
    assert_eq!(ch.poll(), Some(20));
    assert_eq!(ch.poll(), Some(30));
    assert!(ch.poll().is_none());
}

#[test]
fn stream_through_model_channels_with_backpressure() {
    let data = pattern_bytes(4 * CHUNK_CAPACITY + 99);
    let mut reader = PayloadReader::new(data.clone());
    let mut tx = StreamingSender::new(100);
    let mut rx = StreamingReceiver::new();
    let mut data_channel: BoundedChannel<Request> = BoundedChannel::new(1);
    let mut ack_channel: BoundedChannel<u64> = BoundedChannel::new(4);
    tx.start();
    let mut delivered: u64 = 0;
    let mut backpressure_seen = false;
    let mut ticks: u32 = 0;
    while !tx.is_closed() {
        ticks += 1;
        assert!(ticks < 1000, "the stream should settle");

        if tx.wants_read() {
            match reader.read_chunk() {
                Some(chunk) => tx.on_chunk(chunk),
                None => {
                    tx.on_eof();
                    continue;
                }
            }
        }

        if let Some(chunk) = tx.pending_chunk() {
            let mut req = Request::new(0);
            let copied = ChunkBuffer::from_slice(chunk.as_bytes(), chunk.len()).unwrap();
            req.push_chunk(copied).unwrap();
            match data_channel.publish(req) {
                Ok(()) => tx.on_publish_ok(),
                Err(e) => {
                    assert_eq!(e, TransportError::Backpressure);
                    backpressure_seen = true;
                    tx.on_backpressure();
                }
            }
        }

        // The subscriber drains one message per tick of its own.
        if ticks % 2 == 0 {
            if let Some(req) = data_channel.poll() {
                let ack = rx.on_request(delivered, &req).unwrap();
                delivered += 1;
                ack_channel.publish(ack).unwrap();
            }
        }

        while let Some(ack) = ack_channel.poll() {
            tx.on_ack(ack).unwrap();
        }

        tx.on_tick_elapsed().unwrap();
    }
    assert!(backpressure_seen);
    assert_eq!(rx.into_payload(), data);
}

#[test]
fn stream_end_to_end_under_window() {
    let data = pattern_bytes(5 * CHUNK_CAPACITY + 123);
    let mut reader = PayloadReader::new(data.clone());
    let mut tx = StreamingSender::new(100);
    let mut rx = StreamingReceiver::new();
    tx.start();
    let mut delivered: u64 = 0;
    while !tx.is_closed() {
        if tx.wants_read() {
            match reader.read_chunk() {
                Some(chunk) => {
                    tx.on_chunk(chunk);
                }
                None => {
                    tx.on_eof();
                    continue;
                }
            }
        }
        if let Some(chunk) = tx.pending_chunk() {
            let mut req = Request::new(0);
            let copied = ChunkBuffer::from_slice(chunk.as_bytes(), chunk.len()).unwrap();
            req.push_chunk(copied).unwrap();
            let ack = rx.on_request(delivered, &req).unwrap();
            delivered += 1;
            tx.on_publish_ok();
            tx.on_ack(ack).unwrap();
        }
        tx.on_tick_elapsed().unwrap();
    }
    assert_eq!(rx.into_payload(), data);
}
