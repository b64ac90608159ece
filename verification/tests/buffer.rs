//! Tests for the sample buffer: the ring, the snapshot, and the handles.

use scope_rs::buffer::SampleBuffer;
use scope_rs::frame::XYSample;

fn frame(x: f32, y: f32) -> XYSample {
    XYSample::new(x.to_bits(), y.to_bits())
}

fn xs(samples: &[XYSample]) -> Vec<f32> {
    samples.iter().map(|s| f32::from_bits(s.x)).collect()
}

#[test]
fn test_producer_consumer() {
    let mut buffer = SampleBuffer::new(4);

    let mut producer = buffer.take_producer().unwrap();
    let mut consumer = buffer.take_consumer().unwrap();

    producer.push(frame(1.0, 1.0));
    producer.push(frame(2.0, 2.0));
    producer.push(frame(3.0, 3.0));

    consumer.update();
    let samples = consumer.get_samples();
    assert_eq!(samples.len(), 4);
}

#[test]
fn test_circular_wrap() {
    let mut buffer = SampleBuffer::new(3);

    let mut producer = buffer.take_producer().unwrap();
    let mut consumer = buffer.take_consumer().unwrap();

    // Push more samples than capacity
    producer.push(frame(1.0, 1.0));
    producer.push(frame(2.0, 2.0));
    producer.push(frame(3.0, 3.0));
    producer.push(frame(4.0, 4.0));

    consumer.update();
    let samples = consumer.get_samples();

    // Should have the 3 most recent samples somewhere in the buffer
    let values = xs(&samples);
    assert!(values.contains(&2.0) || values.contains(&3.0) || values.contains(&4.0));
}

#[test]
fn test_compatibility_api() {
    let mut buffer = SampleBuffer::new(4);

    buffer.push(frame(1.0, 1.0));
    buffer.push(frame(2.0, 2.0));

    let samples = buffer.get_samples();
    assert_eq!(samples.len(), 4);
}

#[test]
fn fill_to_capacity_reads_all_in_order() {
    // Exactly C pushes into a fresh buffer: the read returns them in push
    // order.
    for cap in [1usize, 2, 3, 4, 8] {
        let mut buffer = SampleBuffer::new(cap);
        for i in 0..cap {
            assert!(buffer.push(frame(i as f32, -(i as f32))));
        }
        let samples = buffer.get_samples();
        assert_eq!(samples.len(), cap);
        for i in 0..cap {
            assert_eq!(f32::from_bits(samples[i].x), i as f32);
            assert_eq!(f32::from_bits(samples[i].y), -(i as f32));
        }
    }
}

#[test]
fn overflow_keeps_newest_suffix_in_order() {
    // N pushes with C < N <= 2C: the read is the last C pushes, in order.
    let cap = 4usize;
    for n in [5usize, 6, 7, 8] {
        let mut buffer = SampleBuffer::new(cap);
        for i in 0..n {
            assert!(buffer.push(frame(i as f32, 0.0)));
        }
        let samples = buffer.get_samples();
        assert_eq!(samples.len(), cap);
        for i in 0..cap {
            assert_eq!(f32::from_bits(samples[i].x), (n - cap + i) as f32);
        }
    }
}

#[test]
fn partial_fill_pads_with_silence_first() {
    // Capacity 4, three pushes: one silent slot first, then the pushes in
    // order.
    let mut buffer = SampleBuffer::new(4);
    buffer.push(frame(1.0, 1.0));
    buffer.push(frame(2.0, 2.0));
    buffer.push(frame(3.0, 3.0));
    let samples = buffer.get_samples();
    assert_eq!(samples.len(), 4);
    assert_eq!(samples[0], XYSample::new(0, 0));
    assert_eq!(xs(&samples)[1..], [1.0, 2.0, 3.0]);
}

#[test]
fn push_into_full_ring_returns_and_counts() {
    // The ring holds 2 frames (capacity 1): every push beyond that still
    // returns immediately with success and the written counter grows.
    let mut buffer = SampleBuffer::new(1);
    for _ in 0..10 {
        assert!(buffer.push(frame(0.5, 0.5)));
    }
    assert_eq!(buffer.samples_written(), 10);
}

#[test]
fn handles_taken_at_most_once() {
    let mut buffer = SampleBuffer::new(2);
    let p1 = buffer.take_producer();
    let p2 = buffer.take_producer();
    assert!(p1.is_some());
    assert!(p2.is_none());
    let c1 = buffer.take_consumer();
    let c2 = buffer.take_consumer();
    assert!(c1.is_some());
    assert!(c2.is_none());
}

#[test]
fn push_after_producer_taken_is_noop() {
    let mut buffer = SampleBuffer::new(2);
    let _p = buffer.take_producer().unwrap();
    assert!(!buffer.push(frame(1.0, 1.0)));
}

#[test]
fn get_samples_after_consumer_taken_is_silence() {
    // Nothing was read before the handle left, so the snapshot the buffer
    // keeps returning is still the initial silent one; the frame pushed
    // afterwards belongs to the taken handle.
    let mut buffer = SampleBuffer::new(3);
    let _c = buffer.take_consumer().unwrap();
    buffer.push(frame(1.0, 1.0));
    let samples = buffer.get_samples();
    assert_eq!(samples.len(), 3);
    assert!(samples.iter().all(|s| *s == XYSample::new(0, 0)));
}

#[test]
fn read_after_consumer_taken_returns_last_snapshot() {
    let mut buffer = SampleBuffer::new(2);
    buffer.push(frame(1.0, 2.0));
    buffer.push(frame(3.0, 4.0));
    let first = buffer.get_samples();
    assert_eq!(xs(&first), vec![1.0, 3.0]);
    let _c = buffer.take_consumer().unwrap();
    // The handle is held elsewhere: the read never blocks and returns the
    // last successfully read snapshot; the new frame goes to the handle.
    buffer.push(frame(9.0, 9.0));
    let again = buffer.get_samples();
    assert_eq!(again, first);
}

#[test]
fn producer_pushes_reach_taken_consumer() {
    // Push through the producer handle, drain through the consumer
    // handle: the newest frames arrive in order.
    let mut buffer = SampleBuffer::new(2);
    let mut producer = buffer.take_producer().unwrap();
    let mut consumer = buffer.take_consumer().unwrap();
    producer.push(frame(5.0, 6.0));
    producer.push(frame(7.0, 8.0));
    consumer.update();
    let samples = consumer.get_samples();
    assert_eq!(xs(&samples), vec![5.0, 7.0]);
    assert_eq!(f32::from_bits(samples[1].y), 8.0);
}

#[test]
fn push_slice_counts_all_samples() {
    let mut buffer = SampleBuffer::new(2);
    let mut producer = buffer.take_producer().unwrap();
    let frames = [frame(1.0, 1.0), frame(2.0, 2.0), frame(3.0, 3.0)];
    producer.push_slice(&frames);
    producer.push_slice(&frames);
    assert_eq!(buffer.samples_written(), 6);
}

#[test]
fn samples_written_counts_drops_too() {
    let mut buffer = SampleBuffer::new(1);
    let mut producer = buffer.take_producer().unwrap();
    for _ in 0..5 {
        producer.push(frame(1.0, 1.0));
    }
    let consumer = buffer.take_consumer().unwrap();
    assert_eq!(consumer.samples_written(), 5);
    // The buffer reads the shared counter once its producer handle left.
    assert_eq!(buffer.samples_written(), 5);
}
