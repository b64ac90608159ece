//! End-to-end playback: a PCM WAV decoded by symphonia drives the
//! engine's decode-loop decisions, the way the real decode thread does.

use scope_rs::buffer::SampleBuffer;
use scope_rs::frame::XYSample;
use scope_rs::player::AudioFileInfo;
use scope_rs::player::AudioFilePlayer;
use scope_rs::player::DecodePoll;
use scope_rs::player::EosOutcome;
use scope_rs::player::PlayAction;
use scope_rs::player::PlaybackState;
use scope_rs::player::TrackMeta;
use scope_rs::player::duration_millis;
use scope_rs::player::select_track;

const RATE: u32 = 8000;
const FRAMES: u32 = 800;

type Format = Box<dyn symphonia::core::formats::FormatReader>;
type Codec = Box<dyn symphonia::core::codecs::Decoder>;

/// A minimal stereo 16-bit PCM WAV: a short ramp on the left channel and
/// its negation on the right.
fn wav_bytes() -> Vec<u8> {
    let channels: u16 = 2;
    let bits: u16 = 16;
    let block_align: u16 = channels * bits / 8;
    let data_size: u32 = FRAMES * block_align as u32;
    let byte_rate: u32 = RATE * block_align as u32;

    let mut b: Vec<u8> = Vec::new();
    b.extend_from_slice(b"RIFF");
    b.extend_from_slice(&(36 + data_size).to_le_bytes());
    b.extend_from_slice(b"WAVE");
    b.extend_from_slice(b"fmt ");
    b.extend_from_slice(&16u32.to_le_bytes());
    b.extend_from_slice(&1u16.to_le_bytes());
    b.extend_from_slice(&channels.to_le_bytes());
    b.extend_from_slice(&RATE.to_le_bytes());
    b.extend_from_slice(&byte_rate.to_le_bytes());
    b.extend_from_slice(&block_align.to_le_bytes());
    b.extend_from_slice(&bits.to_le_bytes());
    b.extend_from_slice(b"data");
    b.extend_from_slice(&data_size.to_le_bytes());
    for i in 0..FRAMES {
        let left = (i % 1000) as i16;
        b.extend_from_slice(&left.to_le_bytes());
        b.extend_from_slice(&(-left).to_le_bytes());
    }
    b
}

fn open_wav() -> (Format, u32) {
    let mss = symphonia::core::io::MediaSourceStream::new(
        Box::new(std::io::Cursor::new(wav_bytes())),
        Default::default(),
    );
    let mut hint = symphonia::core::probe::Hint::new();
    hint.with_extension("wav");
    let probed = symphonia::default::get_probe()
        .format(&hint, mss, &Default::default(), &Default::default())
        .expect("probe wav");
    let format = probed.format;
    let track_id = symphonia::core::formats::FormatReader::tracks(format.as_ref())
        .iter()
        .find(|t| t.codec_params.codec != symphonia::core::codecs::CODEC_TYPE_NULL)
        .expect("a recognized track")
        .id;
    (format, track_id)
}

fn make_decoder(format: &Format) -> Codec {
    let params = &symphonia::core::formats::FormatReader::tracks(format.as_ref())[0].codec_params;
    symphonia::default::get_codecs()
        .make(params, &Default::default())
        .expect("decoder")
}

fn seek_to(format: &mut Format, track_id: u32, seconds: f64) {
    let _ = symphonia::core::formats::FormatReader::seek(
        format.as_mut(),
        symphonia::core::formats::SeekMode::Accurate,
        symphonia::core::formats::SeekTo::Time {
            time: symphonia::core::units::Time::from(seconds),
            track_id: Some(track_id),
        },
    );
}

/// The load path against real probe results: track facts in, metadata out.
fn load(player: &mut AudioFilePlayer, format: &Format) {
    player.begin_load();
    let tracks: Vec<TrackMeta> = symphonia::core::formats::FormatReader::tracks(format.as_ref())
        .iter()
        .map(|t| TrackMeta {
            codec_recognized: t.codec_params.codec != symphonia::core::codecs::CODEC_TYPE_NULL,
            sample_rate: t.codec_params.sample_rate,
            channels: t.codec_params.channels.map(|c| c.count() as u32),
            n_frames: t.codec_params.n_frames,
        })
        .collect();
    let idx = select_track(&tracks).expect("a decodable track");
    let meta = tracks[idx];
    let sample_rate = meta.sample_rate.unwrap_or(44100).max(1);
    let n_frames = meta.n_frames.unwrap_or(0);
    player.finish_load(
        AudioFileInfo {
            path: "ramp.wav".to_string(),
            filename: "ramp.wav".to_string(),
            duration_millis: duration_millis(n_frames, sample_rate),
            sample_rate,
            channels: meta.channels.unwrap_or(2),
            format: "PCM_S16LE".to_string(),
        },
        n_frames,
    );
}

fn extract(decoded: &symphonia::core::audio::AudioBufferRef<'_>) -> Vec<XYSample> {
    let mut frames = Vec::new();
    if let symphonia::core::audio::AudioBufferRef::S16(buf) = decoded {
        type Buf = symphonia::core::audio::AudioBuffer<i16>;
        let channels = buf.as_ref().spec().channels.count();
        let n = decoded.frames();
        for i in 0..n {
            let x =
                <Buf as symphonia::core::audio::Signal<i16>>::chan(buf.as_ref(), 0)[i] as f32
                    / 32768.0;
            let y = if channels > 1 {
                <Buf as symphonia::core::audio::Signal<i16>>::chan(buf.as_ref(), 1)[i] as f32
                    / 32768.0
            } else {
                x
            };
            frames.push(XYSample::new(x.to_bits(), y.to_bits()));
        }
    }
    frames
}

/// One decode-loop pass: poll, read, decode, feed — until the engine
/// decides to exit. Returns how many end-of-stream events were handled.
fn run_decode(
    player: &mut AudioFilePlayer,
    viz: &mut SampleBuffer,
    format: &mut Format,
    decoder: &mut Codec,
    track_id: u32,
    stop_after_eos: bool,
) -> u32 {
    let mut eos_handled = 0u32;
    loop {
        match player.decode_poll() {
            DecodePoll::Exit => break,
            DecodePoll::Wait => continue,
            DecodePoll::Decode => {}
        }
        let packet = match symphonia::core::formats::FormatReader::next_packet(format.as_mut()) {
            Ok(p) => p,
            Err(symphonia::core::errors::Error::IoError(e))
                if e.kind() == std::io::ErrorKind::UnexpectedEof =>
            {
                eos_handled += 1;
                match player.on_end_of_stream() {
                    EosOutcome::Restarted => {
                        if stop_after_eos {
                            break;
                        }
                        seek_to(format, track_id, 0.0);
                        continue;
                    }
                    EosOutcome::Halted => break,
                }
            }
            Err(_) => break,
        };
        if packet.track_id() != track_id {
            continue;
        }
        if let Ok(decoded) = symphonia::core::codecs::Decoder::decode(decoder.as_mut(), &packet) {
            let frames = extract(&decoded);
            player.on_packet_decoded(&frames, viz);
        }
    }
    eos_handled
}

#[test]
fn wav_plays_to_end_and_stops() {
    let (mut format, track_id) = open_wav();
    let mut player = AudioFilePlayer::new();
    load(&mut player, &format);
    assert_eq!(player.total_frames(), FRAMES as u64);
    assert_eq!(player.info.as_ref().unwrap().duration_millis, 100);

    let mut decoder = make_decoder(&format);
    assert_eq!(player.play(), PlayAction::Started);

    let mut viz = SampleBuffer::new(64);
    run_decode(&mut player, &mut viz, &mut format, &mut decoder, track_id, false);

    // The whole file went through: the position covers every frame, and
    // without loop playback the engine stopped itself at end of stream.
    assert_eq!(player.position_frames(), FRAMES as u64);
    assert_eq!(player.state(), PlaybackState::Stopped);
    // The position fraction reached the far end.
    assert_eq!(player.position_frames() * 1000 / player.total_frames(), 1000);
    // The visualization buffer was never drained while decoding, so its
    // ring (twice the display capacity) kept the oldest frames and dropped
    // the rest; the snapshot shows the newest of the kept set, in order.
    let samples = viz.get_samples();
    assert_eq!(samples.len(), 64);
    assert_eq!(f32::from_bits(samples[0].x), 64.0 / 32768.0);
    let last = samples.last().unwrap();
    assert_eq!(f32::from_bits(last.x), 127.0 / 32768.0);
    assert_eq!(f32::from_bits(last.y), -127.0 / 32768.0);
}

#[test]
fn wav_with_loop_restarts_at_end() {
    let (mut format, track_id) = open_wav();
    let mut player = AudioFilePlayer::new();
    load(&mut player, &format);
    player.loop_playback = true;

    let mut decoder = make_decoder(&format);
    player.play();

    let mut viz = SampleBuffer::new(16);
    let eos = run_decode(&mut player, &mut viz, &mut format, &mut decoder, track_id, true);

    // End of stream was reached, and instead of stopping, the position
    // reset toward zero and playback kept going.
    assert_eq!(eos, 1);
    assert_eq!(player.position_frames(), 0);
    assert_eq!(player.position_millis(), 0);
    assert_eq!(player.state(), PlaybackState::Playing);
    assert_eq!(player.decode_poll(), DecodePoll::Decode);
    player.stop();
}

#[test]
fn wav_seek_half_lands_midway() {
    let (mut format, track_id) = open_wav();
    let mut player = AudioFilePlayer::new();
    load(&mut player, &format);
    player.play();

    // Seek to the middle: the engine's position moves there at once and
    // the seek is marked pending; the decode loop points the decoder at
    // the same spot before the next packet and reports it handled.
    player.seek(500);
    assert_eq!(player.position_frames(), (FRAMES / 2) as u64);
    assert!(player.seek_pending());
    let rate = player.info.as_ref().unwrap().sample_rate;
    seek_to(
        &mut format,
        track_id,
        player.position_frames() as f64 / rate as f64,
    );
    player.seek_handled();
    assert!(!player.seek_pending());
    let mut decoder = make_decoder(&format);
    let mut viz = SampleBuffer::new(16);
    run_decode(&mut player, &mut viz, &mut format, &mut decoder, track_id, false);

    // The rest of the file was decoded on top of the seek target. The
    // decoder rewinds at most one packet, so the final position is the
    // seek target plus between half a file and a whole file of frames.
    assert!(player.position_frames() >= FRAMES as u64);
    assert!(player.position_frames() <= (FRAMES + FRAMES / 2) as u64);
    assert_eq!(player.state(), PlaybackState::Stopped);
}
