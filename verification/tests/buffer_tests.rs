use logging_engine::buffer::{MpscRingBuffer, RingBuffer};
use logging_engine::error::LoggingError;
use std::time::Instant;

#[test]
fn test_ring_buffer_basic_operations() {
    let mut buffer = RingBuffer::new(1024).unwrap();

    // Test write and read
    buffer.try_write(42).unwrap();
    assert_eq!(buffer.len(), 1);
    assert_eq!(buffer.try_read(), Some(42));
    assert_eq!(buffer.len(), 0);
    assert!(buffer.is_empty());
}

#[test]
fn test_ring_buffer_wraparound() {
    let mut buffer = RingBuffer::new(4).unwrap();

    // Fill buffer
    for i in 0..4 {
        buffer.try_write(i).unwrap();
    }
    assert!(buffer.is_full());

    // Should fail to write when full
    assert!(buffer.try_write(4).is_err());

    // Read and write to test wraparound
    assert_eq!(buffer.try_read(), Some(0));
    buffer.try_write(4).unwrap();

    // Verify order
    assert_eq!(buffer.try_read(), Some(1));
    assert_eq!(buffer.try_read(), Some(2));
    assert_eq!(buffer.try_read(), Some(3));
    assert_eq!(buffer.try_read(), Some(4));
}

#[test]
fn test_performance() {
    let mut buffer = RingBuffer::new(1024 * 1024).unwrap(); // 1M entries
    let count = 100_000;

    let start = Instant::now();

    // Write performance test
    for i in 0..count {
        buffer.try_write(i).unwrap();
    }

    let write_duration = start.elapsed();

    let start = Instant::now();

    // Read performance test
    for _ in 0..count {
        buffer.try_read().unwrap();
    }

    let read_duration = start.elapsed();

    println!("Write throughput: {:.0} ops/sec", count as f64 / write_duration.as_secs_f64());
    println!("Read throughput: {:.0} ops/sec", count as f64 / read_duration.as_secs_f64());

    // Should achieve >1M ops/sec
    assert!(count as f64 / write_duration.as_secs_f64() > 1_000_000.0);
    assert!(count as f64 / read_duration.as_secs_f64() > 1_000_000.0);
}

#[test]
fn capacity_must_be_a_power_of_two() {
    for bad in [0usize, 3, 5, 6, 100, 1023, 1025] {
        assert!(matches!(RingBuffer::<u8>::new(bad), Err(LoggingError::BufferError(_))), "{}", bad);
        assert!(
            matches!(MpscRingBuffer::<u8>::new(bad), Err(LoggingError::BufferError(_))),
            "{}",
            bad
        );
    }
    for good in [1usize, 2, 4, 1024] {
        let b = RingBuffer::<u8>::new(good).unwrap();
        assert_eq!(b.capacity(), good);
        assert!(b.is_empty());
        assert_eq!(MpscRingBuffer::<u8>::new(good).unwrap().capacity(), good);
    }
}

#[test]
fn exactly_capacity_writes_before_the_first_refusal() {
    for capacity in [1usize, 2, 8, 1024] {
        let mut queue = MpscRingBuffer::new(capacity).unwrap();
        let mut accepted = 0;
        for i in 0..capacity + 10 {
            match queue.try_write(i) {
                Ok(()) => {
                    assert_eq!(i, accepted, "a write was accepted after a refusal");
                    accepted += 1;
                }
                Err(e) => assert!(matches!(e, LoggingError::BufferError(_))),
            }
        }
        assert_eq!(accepted, capacity);
        assert_eq!(queue.len(), capacity);
        for i in 0..capacity {
            assert_eq!(queue.try_read(), Some(i));
        }
        assert_eq!(queue.try_read(), None);
        assert!(queue.is_empty());
    }
}

#[test]
fn order_survives_many_laps() {
    let mut queue = MpscRingBuffer::new(8).unwrap();
    let mut next_in = 0u32;
    let mut next_out = 0u32;
    for round in 0..1000 {
        let burst = round % 9;
        for _ in 0..burst {
            if queue.try_write(next_in).is_ok() {
                next_in += 1;
            }
        }
        for _ in 0..(round % 5) {
            if let Some(v) = queue.try_read() {
                assert_eq!(v, next_out);
                next_out += 1;
            }
        }
        assert_eq!(queue.len() as u32, next_in - next_out);
    }
    queue.clear();
    assert!(queue.is_empty());
    assert_eq!(queue.try_read(), None);
}

#[test]
fn clear_and_utilization() {
    let mut buffer = RingBuffer::new(8).unwrap();
    assert_eq!(buffer.utilization_percent(), 0);
    for i in 0..3 {
        buffer.try_write(i).unwrap();
    }
    assert_eq!(buffer.utilization_percent(), 37);
    for i in 3..8 {
        buffer.try_write(i).unwrap();
    }
    assert_eq!(buffer.utilization_percent(), 100);
    assert!(buffer.is_full());
    buffer.clear();
    assert!(buffer.is_empty());
    assert!(!buffer.is_full());
    assert_eq!(buffer.len(), 0);
    buffer.try_write(9).unwrap();
    assert_eq!(buffer.try_read(), Some(9));
}
