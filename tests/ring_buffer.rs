use telemetry_core::ring_buffer::RingBuffer;
use telemetry_core::sensor::SensorFrame;

#[test]
fn test_push_and_read() {
    let mut buffer = RingBuffer::new(10);

    for i in 0..5 {
        buffer.push(SensorFrame {
            timestamp_ms: i as u64 * 1000,
            rpm: (i * 100) as u16,
            ..Default::default()
        });
    }

    assert_eq!(buffer.len(), 5);

    let frames = buffer.read_last(3);
    assert_eq!(frames.len(), 3);
    assert_eq!(frames[0].rpm, 400);
    assert_eq!(frames[2].rpm, 200);
}

#[test]
fn test_overwrite_oldest() {
    let mut buffer = RingBuffer::new(5);

    for i in 0..10 {
        buffer.push(SensorFrame {
            rpm: (i * 100) as u16,
            ..Default::default()
        });
    }

    assert_eq!(buffer.len(), 4);

    let frames = buffer.read_last(4);
    assert!(frames[0].rpm >= 500);
}

#[test]
fn length_stays_below_capacity_and_total_counts_every_push() {
    let mut buffer = RingBuffer::new(7);
    for i in 0..25u64 {
        buffer.push(SensorFrame::new(i));
        assert!(buffer.len() <= 6);
        assert_eq!(buffer.total_written(), (i + 1) as usize);
    }
    assert!(buffer.is_full());
    assert_eq!(buffer.capacity(), 7);
}

#[test]
fn read_last_returns_newest_in_reverse_order() {
    let mut buffer = RingBuffer::new(4);
    for t in [10u64, 20, 30, 40, 50] {
        buffer.push(SensorFrame::new(t));
    }
    let stamps: Vec<u64> = buffer.read_last(10).iter().map(|f| f.timestamp_ms).collect();
    assert_eq!(stamps, vec![50, 40, 30]);
    let two: Vec<u64> = buffer.read_last(2).iter().map(|f| f.timestamp_ms).collect();
    assert_eq!(two, vec![50, 40]);
}

#[test]
fn read_window_keeps_recent_frames() {
    let mut buffer = RingBuffer::new(10);
    for t in [1000u64, 2000, 3000, 4000] {
        buffer.push(SensorFrame::new(t));
    }
    let stamps: Vec<u64> = buffer.read_window(1500, 4000).iter().map(|f| f.timestamp_ms).collect();
    assert_eq!(stamps, vec![4000, 3000]);
    assert_eq!(buffer.read_window(10_000, 4000).len(), 4);
}

#[test]
fn clear_empties_the_buffer() {
    let mut buffer = RingBuffer::with_default_capacity();
    assert_eq!(buffer.capacity(), 3000);
    buffer.push(SensorFrame::new(1));
    assert!(!buffer.is_empty());
    buffer.clear();
    assert!(buffer.is_empty());
    assert_eq!(buffer.total_written(), 1);
}

#[test]
fn capacity_one_holds_nothing() {
    let mut buffer = RingBuffer::new(1);
    buffer.push(SensorFrame::new(1));
    assert_eq!(buffer.len(), 0);
    assert!(buffer.read_last(1).is_empty());
}
