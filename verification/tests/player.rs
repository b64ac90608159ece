//! Tests for the playback engine: loading, the state machine, seeking,
//! and the decode-loop decisions.

use scope_rs::buffer::SampleBuffer;
use scope_rs::frame::XYSample;
use scope_rs::player::{
    duration_millis, duration_min_sec, make_output_ring, next_output_frame, select_track,
    AudioFileInfo, AudioFilePlayer, DecodePoll, EosOutcome, FileError, PlayAction, PlaybackState,
    TrackMeta,
};

fn info(rate: u32) -> AudioFileInfo {
    AudioFileInfo {
        path: "/tmp/tone.wav".to_string(),
        filename: "tone.wav".to_string(),
        duration_millis: 1000,
        sample_rate: rate,
        channels: 2,
        format: "PCM_S16LE".to_string(),
    }
}

fn frame(x: f32, y: f32) -> XYSample {
    XYSample::new(x.to_bits(), y.to_bits())
}

#[test]
fn duration_millis_exact() {
    assert_eq!(duration_millis(44100, 44100), 1000);
    assert_eq!(duration_millis(88200, 44100), 2000);
    assert_eq!(duration_millis(22050, 44100), 500);
    assert_eq!(duration_millis(1, 44100), 0);
    assert_eq!(duration_millis(0, 48000), 0);
}

#[test]
fn duration_min_sec_exact() {
    assert_eq!(duration_min_sec(125), (2, 5));
    assert_eq!(duration_min_sec(0), (0, 0));
    assert_eq!(duration_min_sec(3599), (59, 59));
}

#[test]
fn select_track_picks_first_recognized() {
    let t = |ok: bool| TrackMeta {
        codec_recognized: ok,
        sample_rate: Some(44100),
        channels: Some(2),
        n_frames: Some(1000),
    };
    assert_eq!(select_track(&vec![t(false), t(true), t(true)]), Ok(1));
    assert_eq!(select_track(&vec![t(true)]), Ok(0));
}

#[test]
fn select_track_no_tracks_error() {
    let t = TrackMeta {
        codec_recognized: false,
        sample_rate: None,
        channels: None,
        n_frames: None,
    };
    assert_eq!(select_track(&Vec::new()), Err(FileError::NoTracks));
    assert_eq!(select_track(&vec![t, t]), Err(FileError::NoTracks));
}

#[test]
fn fresh_player_is_stopped() {
    let p = AudioFilePlayer::new();
    assert_eq!(p.state(), PlaybackState::Stopped);
    assert!(!p.has_file());
    assert_eq!(p.position_frames(), 0);
    assert_eq!(p.status, "No file loaded");
}

#[test]
fn play_without_file_does_nothing() {
    let mut p = AudioFilePlayer::new();
    assert_eq!(p.play(), PlayAction::NoFile);
    assert_eq!(p.state(), PlaybackState::Stopped);
}

#[test]
fn play_pause_resume_stop_transitions() {
    let mut p = AudioFilePlayer::new();
    p.finish_load(info(44100), 44100);
    assert!(p.has_file());
    assert_eq!(p.play(), PlayAction::Started);
    assert_eq!(p.state(), PlaybackState::Playing);
    assert_eq!(p.status, "Playing");
    assert_eq!(p.play(), PlayAction::AlreadyPlaying);
    p.pause();
    assert_eq!(p.state(), PlaybackState::Paused);
    assert_eq!(p.status, "Paused");
    assert_eq!(p.play(), PlayAction::Resumed);
    assert_eq!(p.state(), PlaybackState::Playing);
    p.stop();
    assert_eq!(p.state(), PlaybackState::Stopped);
    assert_eq!(p.position_frames(), 0);
    assert_eq!(p.status, "Stopped");
}

#[test]
fn toggle_cycles_states() {
    let mut p = AudioFilePlayer::new();
    p.finish_load(info(44100), 44100);
    assert_eq!(p.toggle(), PlayAction::Started);
    assert_eq!(p.state(), PlaybackState::Playing);
    assert_eq!(p.toggle(), PlayAction::PausedNow);
    assert_eq!(p.state(), PlaybackState::Paused);
    assert_eq!(p.toggle(), PlayAction::Resumed);
    assert_eq!(p.state(), PlaybackState::Playing);
}

#[test]
fn seek_sets_clamped_position() {
    let mut p = AudioFilePlayer::new();
    p.finish_load(info(44100), 1000);
    p.seek(500);
    assert_eq!(p.position_frames(), 500);
    p.seek(250);
    assert_eq!(p.position_frames(), 250);
    p.seek(5000);
    assert_eq!(p.position_frames(), 1000);
    p.seek(0);
    assert_eq!(p.position_frames(), 0);
}

#[test]
fn seek_marks_pending_until_handled() {
    let mut p = AudioFilePlayer::new();
    p.finish_load(info(44100), 1000);
    assert!(!p.seek_pending());
    p.play();
    p.seek(500);
    assert!(p.seek_pending());
    assert_eq!(p.position_frames(), 500);
    // The decode loop points the decoder at the position and reports back.
    p.seek_handled();
    assert!(!p.seek_pending());
    // Stopping clears any pending seek with the rest of the transport.
    p.seek(250);
    assert!(p.seek_pending());
    p.stop();
    assert!(!p.seek_pending());
}

#[test]
fn decode_poll_follows_state() {
    let mut p = AudioFilePlayer::new();
    p.finish_load(info(44100), 1000);
    assert_eq!(p.decode_poll(), DecodePoll::Exit);
    p.play();
    assert_eq!(p.decode_poll(), DecodePoll::Decode);
    p.pause();
    assert_eq!(p.decode_poll(), DecodePoll::Wait);
    p.play();
    p.stop();
    assert_eq!(p.decode_poll(), DecodePoll::Exit);
}

#[test]
fn end_of_stream_without_loop_stops() {
    let mut p = AudioFilePlayer::new();
    p.finish_load(info(100), 200);
    p.play();
    let mut viz = SampleBuffer::new(4);
    let packet: Vec<XYSample> = (0..100).map(|i| frame(i as f32, 0.0)).collect();
    p.on_packet_decoded(&packet, &mut viz);
    p.on_packet_decoded(&packet, &mut viz);
    assert_eq!(p.position_frames(), 200);
    assert_eq!(p.on_end_of_stream(), EosOutcome::Halted);
    assert_eq!(p.state(), PlaybackState::Stopped);
    assert_eq!(p.decode_poll(), DecodePoll::Exit);
}

#[test]
fn end_of_stream_with_loop_restarts() {
    let mut p = AudioFilePlayer::new();
    p.finish_load(info(100), 200);
    p.loop_playback = true;
    p.play();
    let mut viz = SampleBuffer::new(4);
    let packet: Vec<XYSample> = (0..200).map(|i| frame(i as f32, 0.0)).collect();
    p.on_packet_decoded(&packet, &mut viz);
    assert_eq!(p.position_frames(), 200);
    assert_eq!(p.on_end_of_stream(), EosOutcome::Restarted);
    assert_eq!(p.position_frames(), 0);
    assert_eq!(p.position_millis(), 0);
    assert_eq!(p.state(), PlaybackState::Playing);
    assert_eq!(p.decode_poll(), DecodePoll::Decode);
}

#[test]
fn packets_feed_visualization_buffer() {
    let mut p = AudioFilePlayer::new();
    p.finish_load(info(44100), 1000);
    p.play();
    let mut viz = SampleBuffer::new(3);
    let packet = vec![frame(1.0, -1.0), frame(2.0, -2.0), frame(3.0, -3.0)];
    p.on_packet_decoded(&packet, &mut viz);
    assert_eq!(p.position_frames(), 3);
    let samples = viz.get_samples();
    assert_eq!(samples, packet);
}

#[test]
fn packets_feed_output_ring_interleaved() {
    let mut p = AudioFilePlayer::new();
    p.finish_load(info(44100), 1000);
    p.play();
    let (prod, mut cons) = make_output_ring(16);
    p.attach_output(prod);
    let mut viz = SampleBuffer::new(4);
    let packet = vec![frame(0.25, -0.25), frame(0.5, -0.5)];
    p.on_packet_decoded(&packet, &mut viz);
    let (l1, r1) = next_output_frame(&mut cons);
    assert_eq!(f32::from_bits(l1), 0.25);
    assert_eq!(f32::from_bits(r1), -0.25);
    let (l2, r2) = next_output_frame(&mut cons);
    assert_eq!(f32::from_bits(l2), 0.5);
    assert_eq!(f32::from_bits(r2), -0.5);
    // Underrun: the ring is empty, the callback gets silence.
    let (l3, r3) = next_output_frame(&mut cons);
    assert_eq!(f32::from_bits(l3), 0.0);
    assert_eq!(f32::from_bits(r3), 0.0);
}

#[test]
fn position_millis_uses_sample_rate() {
    let mut p = AudioFilePlayer::new();
    p.finish_load(info(1000), 5000);
    p.play();
    let mut viz = SampleBuffer::new(2);
    let packet: Vec<XYSample> = (0..2500).map(|_| frame(0.0, 0.0)).collect();
    p.on_packet_decoded(&packet, &mut viz);
    assert_eq!(p.position_millis(), 2500);
    assert_eq!(p.total_frames(), 5000);
}

#[test]
fn begin_load_discards_previous_file() {
    let mut p = AudioFilePlayer::new();
    p.finish_load(info(44100), 1000);
    p.play();
    p.begin_load();
    assert!(!p.has_file());
    assert_eq!(p.state(), PlaybackState::Stopped);
    assert_eq!(p.position_frames(), 0);
    assert_eq!(p.total_frames(), 0);
}

#[test]
fn volume_publish_observe() {
    let mut p = AudioFilePlayer::new();
    assert_eq!(f32::from_bits(p.observed_volume()), 1.0);
    p.volume = 0.5f32.to_bits();
    // Not yet published: the decode thread still sees the old value.
    assert_eq!(f32::from_bits(p.observed_volume()), 1.0);
    p.sync_volume();
    assert_eq!(f32::from_bits(p.observed_volume()), 0.5);
}

#[test]
fn volume_change_is_not_retroactive() {
    let mut p = AudioFilePlayer::new();
    p.finish_load(info(44100), 1000);
    p.play();
    let mut viz = SampleBuffer::new(4);

    // One packet scaled by the published volume of 1.0.
    let v1 = f32::from_bits(p.observed_volume());
    let packet1 = vec![frame(0.8 * v1, 0.8 * v1), frame(0.6 * v1, 0.6 * v1)];
    p.on_packet_decoded(&packet1, &mut viz);

    // The UI halves the volume and publishes it; only later packets are
    // scaled by the new value.
    p.volume = 0.5f32.to_bits();
    p.sync_volume();
    let v2 = f32::from_bits(p.observed_volume());
    let packet2 = vec![frame(0.8 * v2, 0.8 * v2), frame(0.6 * v2, 0.6 * v2)];
    p.on_packet_decoded(&packet2, &mut viz);

    let samples = viz.get_samples();
    let xs: Vec<f32> = samples.iter().map(|s| f32::from_bits(s.x)).collect();
    assert_eq!(xs, vec![0.8, 0.6, 0.4, 0.3]);
}
