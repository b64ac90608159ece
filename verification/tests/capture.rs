//! Tests for the live-capture producer.

use scope_rs::buffer::SampleBuffer;
use scope_rs::capture::{frames_from_interleaved, AudioInput, CaptureAction};
use scope_rs::frame::XYSample;

#[test]
fn interleaved_stereo_pairs() {
    let frames = frames_from_interleaved(&vec![1, 2, 3, 4], 2);
    assert_eq!(frames, vec![XYSample::new(1, 2), XYSample::new(3, 4)]);
}

#[test]
fn interleaved_mono_mirrors_channel() {
    let frames = frames_from_interleaved(&vec![5, 6], 1);
    assert_eq!(frames, vec![XYSample::new(5, 5), XYSample::new(6, 6)]);
}

#[test]
fn interleaved_extra_channels_dropped() {
    let frames = frames_from_interleaved(&vec![1, 2, 3, 4, 5, 6, 7, 8], 4);
    assert_eq!(frames, vec![XYSample::new(1, 2), XYSample::new(5, 6)]);
}

#[test]
fn interleaved_partial_frame_dropped() {
    let frames = frames_from_interleaved(&vec![1, 2, 3], 2);
    assert_eq!(frames, vec![XYSample::new(1, 2)]);
}

#[test]
fn capture_block_skips_while_stopped() {
    let input = AudioInput::new();
    assert!(!input.is_capturing());
    let mut buffer = SampleBuffer::new(2);
    input.capture_block(&vec![XYSample::new(1, 1)], &mut buffer);
    assert_eq!(buffer.samples_written(), 0);
    let samples = buffer.get_samples();
    assert!(samples.iter().all(|s| *s == XYSample::new(0, 0)));
}

#[test]
fn capture_block_pushes_while_active() {
    let mut input = AudioInput::new();
    input.on_stream_started();
    assert!(input.is_capturing());
    let mut buffer = SampleBuffer::new(2);
    input.capture_block(&vec![XYSample::new(3, 4), XYSample::new(5, 6)], &mut buffer);
    assert_eq!(buffer.samples_written(), 2);
    let samples = buffer.get_samples();
    assert_eq!(samples, vec![XYSample::new(3, 4), XYSample::new(5, 6)]);
}

#[test]
fn stop_silences_later_blocks() {
    let mut input = AudioInput::new();
    input.on_stream_started();
    input.stop();
    let mut buffer = SampleBuffer::new(2);
    input.capture_block(&vec![XYSample::new(9, 9)], &mut buffer);
    assert_eq!(buffer.samples_written(), 0);
}

#[test]
fn toggle_requests_matching_action() {
    let mut input = AudioInput::new();
    assert_eq!(input.toggle(), CaptureAction::StartRequested);
    input.on_stream_started();
    assert_eq!(input.toggle(), CaptureAction::StopRequested);
    input.stop();
    assert_eq!(input.toggle(), CaptureAction::StartRequested);
}

#[test]
fn gain_publish_observe() {
    let mut input = AudioInput::new();
    assert_eq!(f32::from_bits(input.observed_gain()), 1.0);
    input.gain = 2.0f32.to_bits();
    // Not yet published: the capture callback still sees the old value.
    assert_eq!(f32::from_bits(input.observed_gain()), 1.0);
    input.sync_gain();
    assert_eq!(f32::from_bits(input.observed_gain()), 2.0);
    // Starting the stream republishes whatever the UI holds.
    input.gain = 3.0f32.to_bits();
    input.on_stream_started();
    assert_eq!(f32::from_bits(input.observed_gain()), 3.0);
}
