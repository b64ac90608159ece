//! The file-playback engine: load bookkeeping, the playback state machine,
//! and the per-packet decisions of the decode loop.
//!
//! Decoding itself — opening the file, probing the container, turning
//! packets into frames — is outside work done by the caller, which hands
//! plain values in: the probed track facts at load time and the decoded,
//! volume-scaled frames of each packet while playing. Every decision the
//! engine takes on those values is verified here: which track a load
//! selects, when a load succeeds, how play/pause/stop/seek move the state
//! machine, what the decode loop does on every poll, and how each decoded
//! packet advances the position and feeds the two sample sinks.

use vstd::prelude::*;

use crate::buffer::{buf_push_seq_spec, BufModel, SampleBuffer};
use crate::frame::{pack_spec, XYSample};
use crate::ring::{out_cons_polls, out_cons_taken, out_cons_try_pop, out_prod_is_full,
    out_prod_offered, out_prod_try_push, out_ring_new, word_load, word_new, word_store,
    OutputConsumer, OutputProducer, SharedWord};

verus! {

/// Errors that can occur during audio file operations.
#[derive(Debug, PartialEq, Eq)]
pub enum FileError {
    /// Opening or reading the file failed; the payload is the reported reason.
    IoError(String),
    /// The container format was not recognized; the payload is the reported reason.
    ProbeError(String),
    /// No decodable audio track was found.
    NoTracks,
    /// A track was found but its codec is not supported.
    UnsupportedCodec,
    /// The decoder failed on the stream; the payload is the reported reason.
    DecoderError(String),
}

/// Playback state.
#[derive(Debug, Clone, Copy, PartialEq, Eq, Structural)]
pub enum PlaybackState {
    Stopped,
    Playing,
    Paused,
}

impl Default for PlaybackState {
    /// Playback starts stopped.
    fn default() -> (s: Self)
        ensures
            s == PlaybackState::Stopped,
    {
        PlaybackState::Stopped
    }
}

/// Audio file metadata, captured once at load time.
#[derive(Debug, Clone)]
pub struct AudioFileInfo {
    pub path: String,
    pub filename: String,
    pub duration_millis: u64,
    pub sample_rate: u32,
    pub channels: u32,
    pub format: String,
}

/// The plain facts the prober reports about one track of a container.
#[derive(Debug, Clone, Copy, PartialEq, Eq, Structural)]
pub struct TrackMeta {
    /// Whether the track's codec was recognized at all.
    pub codec_recognized: bool,
    /// The declared sample rate, when the container states one.
    pub sample_rate: Option<u32>,
    /// The declared channel count, when the container states one.
    pub channels: Option<u32>,
    /// The declared total frame count, when the container states one.
    pub n_frames: Option<u64>,
}

/// Select the track a load plays: the first one whose codec is recognized.
/// Fails with [`FileError::NoTracks`] exactly when no track qualifies.
pub fn select_track(tracks: &Vec<TrackMeta>) -> (r: Result<usize, FileError>)
    ensures
        match r {
            Ok(i) => i < tracks@.len() && tracks@[i as int].codec_recognized && (forall|j: int|
                0 <= j < i ==> !tracks@[j].codec_recognized),
            Err(e) => e == FileError::NoTracks && (forall|j: int|
                0 <= j < tracks@.len() ==> !tracks@[j].codec_recognized),
        },
{
    let n = tracks.len();
    let mut i: usize = 0;
    while i < n
        invariant
            n == tracks@.len(),
            i <= n,
            forall|j: int| 0 <= j < i ==> !tracks@[j].codec_recognized,
        decreases n - i,
    {
        if tracks[i].codec_recognized {
            return Ok(i);
        }
        i = i + 1;
    }
    Err(FileError::NoTracks)
}

/// The duration in milliseconds of `n_frames` frames at `sample_rate`
/// frames per second, rounded down and saturating at the largest
/// representable value.
pub fn duration_millis(n_frames: u64, sample_rate: u32) -> (d: u64)
    requires
        sample_rate >= 1,
    ensures
        d == if n_frames * 1000 / (sample_rate as int) <= u64::MAX {
            n_frames * 1000 / (sample_rate as int)
        } else {
            u64::MAX as int
        },
{
    let wide: u128 = (n_frames as u128) * 1000 / (sample_rate as u128);
    if wide <= u64::MAX as u128 {
        wide as u64
    } else {
        u64::MAX
    }
}

/// The minutes and seconds of a whole-second duration, for display as
/// `minutes:seconds`.
pub fn duration_min_sec(total_seconds: u64) -> (r: (u64, u64))
    ensures
        r.0 == total_seconds / 60,
        r.1 == total_seconds % 60,
        r.1 < 60,
{
    (total_seconds / 60, total_seconds % 60)
}

/// The mathematical state of the playback engine.
#[verifier::ext_equal]
pub ghost struct PlayerModel {
    /// Whether a file is loaded.
    pub has_file: bool,
    /// The playback state machine.
    pub state: PlaybackState,
    /// The playback position in frames.
    pub position: nat,
    /// The loaded file's total frame count (0 when unknown).
    pub total: nat,
    /// The loaded file's sample rate in frames per second.
    pub rate: nat,
    /// The UI-bound volume scalar, as its raw 32-bit word.
    pub volume: nat,
    /// Whether the decode loop is meant to keep running.
    pub running: bool,
    /// Whether playback restarts from the top at end of stream.
    pub looping: bool,
    /// Whether an audio-output sink is attached.
    pub has_output: bool,
    /// The channel words offered to the output sink so far: x then y of
    /// every frame, in order. Empty while no sink is attached.
    pub sink: Seq<u32>,
    /// Whether a seek is waiting for the decode loop to point the
    /// decoder at the stored position.
    pub seek_pending: bool,
}

/// What a `play` or `toggle` call decided, so the caller knows which
/// outside work is due.
#[derive(Debug, Clone, Copy, PartialEq, Eq, Structural)]
pub enum PlayAction {
    /// Nothing to play: no file is loaded.
    NoFile,
    /// Playback was paused and resumes in place; the decode loop is alive.
    Resumed,
    /// Playback starts from stopped: the caller opens the output sink and
    /// starts the decode loop.
    Started,
    /// Playback was already running; nothing to do.
    AlreadyPlaying,
    /// Playback was running and is now paused.
    PausedNow,
}

/// What the decode loop does next, decided once per iteration.
#[derive(Debug, Clone, Copy, PartialEq, Eq, Structural)]
pub enum DecodePoll {
    /// Leave the loop: playback was stopped or torn down.
    Exit,
    /// Sleep briefly and poll again: playback is paused.
    Wait,
    /// Read and decode the next packet.
    Decode,
}

/// What the decode loop does at end of stream.
#[derive(Debug, Clone, Copy, PartialEq, Eq, Structural)]
pub enum EosOutcome {
    /// Loop playback: the caller seeks the decoder back to the start and
    /// the position was reset to zero.
    Restarted,
    /// Playback stops; the decode loop exits.
    Halted,
}

/// Audio file player: the playback state machine and the per-packet
/// decisions of the decode loop.
pub struct AudioFilePlayer {
    /// Current file info, when a file is loaded.
    pub info: Option<AudioFileInfo>,
    state: PlaybackState,
    position: u64,
    total_samples: u64,
    sample_rate: u32,
    is_running: bool,
    /// Volume as the raw 32-bit word of the scalar, bound by the UI.
    /// Published to the decode thread by [`Self::sync_volume`].
    pub volume: u32,
    volume_atomic: SharedWord,
    /// Loop playback at end of stream.
    pub loop_playback: bool,
    /// Status message for display.
    pub status: String,
    out: Option<OutputProducer>,
    seek_pending: bool,
}

impl View for AudioFilePlayer {
    type V = PlayerModel;

    closed spec fn view(&self) -> PlayerModel {
        PlayerModel {
            has_file: self.info is Some,
            state: self.state,
            position: self.position as nat,
            total: self.total_samples as nat,
            rate: self.sample_rate as nat,
            volume: self.volume as nat,
            running: self.is_running,
            looping: self.loop_playback,
            has_output: self.out is Some,
            sink: match self.out {
                Some(p) => out_prod_offered(p),
                None => Seq::<u32>::empty(),
            },
            seek_pending: self.seek_pending,
        }
    }
}

impl AudioFilePlayer {
    /// Shape constraints that every reachable player satisfies.
    pub closed spec fn wf(&self) -> bool {
        self.sample_rate >= 1
    }

    /// The status message, as a sequence of characters.
    pub closed spec fn status_view(&self) -> Seq<char> {
        self.status@
    }

    /// The loaded file's metadata.
    pub closed spec fn spec_info(&self) -> Option<AudioFileInfo> {
        self.info
    }

    /// Create a new audio file player: no file, stopped, at the start.
    pub fn new() -> (p: Self)
        ensures
            p.wf(),
            p@ == (PlayerModel {
                has_file: false,
                state: PlaybackState::Stopped,
                position: 0,
                total: 0,
                rate: 44100,
                volume: 0x3F80_0000,
                running: false,
                looping: false,
                has_output: false,
                sink: Seq::<u32>::empty(),
                seek_pending: false,
            }),
            p.status_view() == "No file loaded"@,
    {
        AudioFilePlayer {
            info: None,
            state: PlaybackState::Stopped,
            position: 0,
            total_samples: 0,
            sample_rate: 44100,
            is_running: false,
            // The word of the scalar one: full volume.
            volume: 0x3F80_0000,
            volume_atomic: word_new(0x3F80_0000),
            loop_playback: false,
            status: "No file loaded".to_owned(),
            out: None,
            seek_pending: false,
        }
    }

    /// Publish the UI-bound volume into the shared word the decode thread
    /// reads each packet, so a change applies within one packet's latency.
    pub fn sync_volume(&self) {
        word_store(&self.volume_atomic, self.volume);
    }

    /// The latest published volume word, as the decode thread observes it
    /// when scaling a packet. A momentary reading of shared state.
    pub fn observed_volume(&self) -> u32 {
        word_load(&self.volume_atomic)
    }

    /// Begin a load: stop any running playback and discard the previous
    /// file. A load either fully succeeds through [`Self::finish_load`] or
    /// leaves the player with no loaded file.
    pub fn begin_load(&mut self)
        requires
            old(self).wf(),
        ensures
            final(self).wf(),
            final(self)@ == (PlayerModel {
                has_file: false,
                state: PlaybackState::Stopped,
                position: 0,
                total: 0,
                running: false,
                has_output: false,
                sink: Seq::<u32>::empty(),
                seek_pending: false,
                ..old(self)@
            }),
    {
        self.stop();
        self.info = None;
        self.total_samples = 0;
        self.position = 0;
        self.status = "No file loaded".to_owned();
    }

    /// Finish a successful load: capture the file's metadata and reset the
    /// position to the start.
    pub fn finish_load(&mut self, info: AudioFileInfo, n_frames: u64)
        requires
            old(self).wf(),
            info.sample_rate >= 1,
        ensures
            final(self).wf(),
            final(self)@ == (PlayerModel {
                has_file: true,
                position: 0,
                total: n_frames as nat,
                rate: info.sample_rate as nat,
                seek_pending: false,
                ..old(self)@
            }),
            final(self).spec_info() == Some(info),
            final(self).status_view() == "Loaded"@,
    {
        self.seek_pending = false;
        self.sample_rate = info.sample_rate;
        self.info = Some(info);
        self.total_samples = n_frames;
        self.position = 0;
        self.status = "Loaded".to_owned();
    }

    /// Start or resume playback.
    ///
    /// With no file loaded, nothing happens. From `Paused` the state
    /// machine resumes in place: the decode loop is still alive and picks
    /// the change up on its next poll. From `Stopped` the engine marks the
    /// loop as running and the caller starts the decode loop (and an
    /// output sink, when one can be opened). A second `play` while already
    /// playing changes nothing.
    pub fn play(&mut self) -> (a: PlayAction)
        requires
            old(self).wf(),
        ensures
            final(self).wf(),
            !old(self)@.has_file ==> a == PlayAction::NoFile && final(self)@ == old(self)@,
            old(self)@.has_file && old(self)@.state is Paused ==> a == PlayAction::Resumed
                && final(self)@ == (PlayerModel { state: PlaybackState::Playing, ..old(self)@ })
                && final(self).status_view() == "Playing"@,
            old(self)@.has_file && old(self)@.state is Playing ==> a == PlayAction::AlreadyPlaying
                && final(self)@ == old(self)@,
            old(self)@.has_file && old(self)@.state is Stopped ==> a == PlayAction::Started
                && final(self)@ == (PlayerModel {
                state: PlaybackState::Playing,
                running: true,
                ..old(self)@
            }) && final(self).status_view() == "Playing"@,
    {
        if self.info.is_none() {
            return PlayAction::NoFile;
        }
        match self.state {
            PlaybackState::Paused => {
                self.state = PlaybackState::Playing;
                self.status = "Playing".to_owned();
                PlayAction::Resumed
            },
            PlaybackState::Playing => PlayAction::AlreadyPlaying,
            PlaybackState::Stopped => {
                self.sync_volume();
                self.is_running = true;
                self.state = PlaybackState::Playing;
                self.status = "Playing".to_owned();
                PlayAction::Started
            },
        }
    }

    /// Pause playback. Only meaningful while playing; the decode loop
    /// detects the change on its next poll and halts work without losing
    /// its place.
    pub fn pause(&mut self)
        requires
            old(self).wf(),
        ensures
            final(self).wf(),
            old(self)@.state is Playing ==> final(self)@ == (PlayerModel {
                state: PlaybackState::Paused,
                ..old(self)@
            }) && final(self).status_view() == "Paused"@,
            !(old(self)@.state is Playing) ==> final(self)@ == old(self)@,
    {
        match self.state {
            PlaybackState::Playing => {
                self.state = PlaybackState::Paused;
                self.status = "Paused".to_owned();
            },
            _ => {},
        }
    }

    /// Stop playback: clear the running flag, force the state machine to
    /// `Stopped`, drop the output sink and reset the position to the
    /// start. Idempotent, so the caller can invoke it again after joining
    /// the decode loop.
    pub fn stop(&mut self)
        requires
            old(self).wf(),
        ensures
            final(self).wf(),
            final(self)@ == (PlayerModel {
                state: PlaybackState::Stopped,
                position: 0,
                running: false,
                has_output: false,
                sink: Seq::<u32>::empty(),
                seek_pending: false,
                ..old(self)@
            }),
    {
        self.is_running = false;
        self.state = PlaybackState::Stopped;
        self.out = None;
        self.seek_pending = false;
        self.position = 0;
        if self.info.is_some() {
            self.status = "Stopped".to_owned();
        } else {
            self.status = "No file loaded".to_owned();
        }
    }

    /// Toggle between playing and paused: stopped or paused starts or
    /// resumes playback, playing pauses it.
    pub fn toggle(&mut self) -> (a: PlayAction)
        requires
            old(self).wf(),
        ensures
            final(self).wf(),
            !(old(self)@.state is Playing) && !old(self)@.has_file ==> a == PlayAction::NoFile
                && final(self)@ == old(self)@,
            old(self)@.has_file && old(self)@.state is Stopped ==> a == PlayAction::Started
                && final(self)@ == (PlayerModel {
                state: PlaybackState::Playing,
                running: true,
                ..old(self)@
            }),
            old(self)@.has_file && old(self)@.state is Paused ==> a == PlayAction::Resumed
                && final(self)@ == (PlayerModel { state: PlaybackState::Playing, ..old(self)@ }),
            old(self)@.state is Playing ==> a == PlayAction::PausedNow && final(self)@ == (
            PlayerModel { state: PlaybackState::Paused, ..old(self)@ })
                && final(self).status_view() == "Paused"@,
    {
        match self.state {
            PlaybackState::Playing => {
                self.pause();
                PlayAction::PausedNow
            },
            _ => self.play(),
        }
    }

    /// Current playback state.
    pub fn state(&self) -> (s: PlaybackState)
        ensures
            s == self@.state,
    {
        self.state
    }

    /// Current position in frames, as the decode loop last stored it.
    pub fn position_frames(&self) -> (p: u64)
        ensures
            p == self@.position,
    {
        self.position
    }

    /// The loaded file's total frame count (0 when unknown).
    pub fn total_frames(&self) -> (t: u64)
        ensures
            t == self@.total,
    {
        self.total_samples
    }

    /// Current position in milliseconds, rounded down and saturating.
    pub fn position_millis(&self) -> (d: u64)
        requires
            self.wf(),
        ensures
            d == if (self@.position as int) * 1000 / (self@.rate as int) <= u64::MAX {
                (self@.position as int) * 1000 / (self@.rate as int)
            } else {
                u64::MAX as int
            },
    {
        duration_millis(self.position, self.sample_rate)
    }

    /// Seek to a position given in thousandths of the file's length. The
    /// argument is clamped to the whole file, and the seek is marked
    /// pending: the decode loop points the decoder at the stored position
    /// at the start of its next iteration and then reports it handled.
    pub fn seek(&mut self, permille: u32)
        requires
            old(self).wf(),
        ensures
            final(self).wf(),
            final(self)@ == (PlayerModel {
                position: (old(self)@.total * (if permille <= 1000 {
                    permille as int
                } else {
                    1000
                }) / 1000) as nat,
                seek_pending: true,
                ..old(self)@
            }),
    {
        self.seek_pending = true;
        let clamped: u32 = if permille <= 1000 {
            permille
        } else {
            1000
        };
        proof {
            vstd::arithmetic::mul::lemma_mul_upper_bound(
                self.total_samples as int,
                u64::MAX as int,
                clamped as int,
                1000,
            );
        }
        let target: u128 = (self.total_samples as u128) * (clamped as u128) / 1000;
        proof {
            assert(self.total_samples * clamped / 1000 <= self.total_samples) by (nonlinear_arith)
                requires
                    clamped <= 1000,
            ;
        }
        self.position = target as u64;
    }

    /// Whether a seek is waiting for the decode loop: if so, the caller
    /// seeks the underlying decoder to the stored position before reading
    /// the next packet, and then reports it handled.
    pub fn seek_pending(&self) -> (b: bool)
        ensures
            b == self@.seek_pending,
    {
        self.seek_pending
    }

    /// The caller reports that the decoder now stands at the stored
    /// position: the pending seek is consumed.
    pub fn seek_handled(&mut self)
        requires
            old(self).wf(),
        ensures
            final(self).wf(),
            final(self)@ == (PlayerModel { seek_pending: false, ..old(self)@ }),
    {
        self.seek_pending = false;
    }

    /// Whether a file is loaded.
    pub fn has_file(&self) -> (b: bool)
        ensures
            b == self@.has_file,
    {
        self.info.is_some()
    }

    /// Attach the producer half of an output ring; the decode loop feeds
    /// it and the output callback drains it. The sink history continues
    /// from whatever was already offered through this half.
    pub fn attach_output(&mut self, prod: OutputProducer)
        requires
            old(self).wf(),
        ensures
            final(self).wf(),
            final(self)@ == (PlayerModel {
                has_output: true,
                sink: out_prod_offered(prod),
                ..old(self)@
            }),
    {
        self.out = Some(prod);
    }

    /// The decode loop's per-iteration decision: exit when stopped or torn
    /// down, wait while paused, otherwise decode the next packet.
    pub fn decode_poll(&self) -> (d: DecodePoll)
        ensures
            d == if !self@.running {
                DecodePoll::Exit
            } else if self@.state is Paused {
                DecodePoll::Wait
            } else if self@.state is Stopped {
                DecodePoll::Exit
            } else {
                DecodePoll::Decode
            },
    {
        if !self.is_running {
            return DecodePoll::Exit;
        }
        match self.state {
            PlaybackState::Paused => DecodePoll::Wait,
            PlaybackState::Stopped => DecodePoll::Exit,
            PlaybackState::Playing => DecodePoll::Decode,
        }
    }

    /// The decode loop's decision at end of stream: with loop playback on,
    /// the position resets to the start and the caller seeks the decoder
    /// back; otherwise playback stops and the loop exits.
    pub fn on_end_of_stream(&mut self) -> (o: EosOutcome)
        requires
            old(self).wf(),
        ensures
            final(self).wf(),
            old(self)@.looping ==> o == EosOutcome::Restarted && final(self)@ == (PlayerModel {
                position: 0,
                ..old(self)@
            }),
            !old(self)@.looping ==> o == EosOutcome::Halted && final(self)@ == (PlayerModel {
                state: PlaybackState::Stopped,
                ..old(self)@
            }),
    {
        if self.loop_playback {
            self.position = 0;
            EosOutcome::Restarted
        } else {
            self.state = PlaybackState::Stopped;
            EosOutcome::Halted
        }
    }

    /// Take one decoded, volume-scaled packet: push every frame into the
    /// visualization buffer, offer the interleaved channel words — x then
    /// y of every frame, in order — to the output sink when one is
    /// attached, and advance the position by the packet's frame count.
    ///
    /// The visualization push is the buffer's own non-blocking push: with
    /// the buffer unsplit the frames land in the ring in order (dropping
    /// only on overflow), and in every case each frame is counted.
    pub fn on_packet_decoded(&mut self, frames: &Vec<XYSample>, viz: &mut SampleBuffer)
        requires
            old(self).wf(),
            old(viz).wf(),
        ensures
            final(self).wf(),
            final(viz).wf(),
            final(self)@ == (PlayerModel {
                position: if old(self)@.position + frames@.len() <= u64::MAX {
                    (old(self)@.position + frames@.len()) as nat
                } else {
                    u64::MAX as nat
                },
                sink: if old(self)@.has_output {
                    old(self)@.sink + interleave_spec(frames@)
                } else {
                    old(self)@.sink
                },
                ..old(self)@
            }),
            old(viz)@.unsplit() ==> final(viz)@ == buf_push_seq_spec(
                old(viz)@,
                frames@.map_values(|f: XYSample| pack_spec(f)),
            ),
            old(viz)@.producer_taken ==> final(viz)@ == old(viz)@,
            !old(viz)@.producer_taken && old(viz)@.consumer_taken ==> final(viz)@ == (BufModel {
                written: old(viz)@.written + frames@.len(),
                ..old(viz)@
            }) && final(viz).offered_words() == old(viz).offered_words() + frames@.map_values(
                |f: XYSample| pack_spec(f),
            ),
    {
        let n = frames.len();
        let ghost packed = frames@.map_values(|f: XYSample| pack_spec(f));
        let mut i: usize = 0;
        while i < n
            invariant
                self.wf(),
                self@ == (PlayerModel {
                    sink: if old(self)@.has_output {
                        old(self)@.sink + interleave_spec(frames@.take(i as int))
                    } else {
                        old(self)@.sink
                    },
                    ..old(self)@
                }),
                n == frames@.len(),
                i <= n,
                viz.wf(),
                packed == frames@.map_values(|f: XYSample| pack_spec(f)),
                old(viz)@.unsplit() ==> viz@ == buf_push_seq_spec(old(viz)@, packed.take(i as int)),
                old(viz)@.producer_taken ==> viz@ == old(viz)@,
                !old(viz)@.producer_taken && old(viz)@.consumer_taken ==> viz@ == (BufModel {
                    written: old(viz)@.written + i as nat,
                    ..old(viz)@
                }) && viz.offered_words() == old(viz).offered_words() + packed.take(i as int),
                viz@.producer_taken == old(viz)@.producer_taken,
                viz@.consumer_taken == old(viz)@.consumer_taken,
            decreases n - i,
        {
            proof {
                if old(viz)@.unsplit() {
                    crate::buffer::lemma_push_seq_snoc(old(viz)@, packed.take(i as int), packed[i as int]);
                }
                assert(packed.take(i as int).push(packed[i as int]) =~= packed.take(i as int + 1));
                assert((old(viz).offered_words() + packed.take(i as int)).push(
                    packed[i as int],
                ) =~= old(viz).offered_words() + packed.take(i as int + 1));
                if old(self)@.has_output {
                    lemma_interleave_snoc(frames@.take(i as int), frames@[i as int]);
                    assert(frames@.take(i as int).push(frames@[i as int]) =~= frames@.take(
                        i as int + 1,
                    ));
                    assert((old(self)@.sink + interleave_spec(frames@.take(i as int))).push(
                        frames@[i as int].x,
                    ).push(frames@[i as int].y) =~= old(self)@.sink + (interleave_spec(
                        frames@.take(i as int),
                    ) + seq![frames@[i as int].x, frames@[i as int].y]));
                }
            }
            let _ = viz.push(frames[i]);
            match &mut self.out {
                Some(p) => {
                    let _ = out_prod_try_push(p, frames[i].x);
                    let _ = out_prod_try_push(p, frames[i].y);
                },
                None => {},
            }
            proof {
                assert(self@ =~= (PlayerModel {
                    sink: if old(self)@.has_output {
                        old(self)@.sink + interleave_spec(frames@.take(i as int + 1))
                    } else {
                        old(self)@.sink
                    },
                    ..old(self)@
                }));
            }
            i = i + 1;
        }
        proof {
            assert(packed.take(n as int) =~= packed);
            assert(frames@.take(n as int) =~= frames@);
        }
        if (n as u64) <= u64::MAX - self.position {
            self.position = self.position + n as u64;
        } else {
            self.position = u64::MAX;
        }
    }

    /// Whether the decode loop should sleep before the next packet: only
    /// when an output sink is attached and momentarily reports itself
    /// full, so decoding is paced by real-time consumption and never
    /// spins unboundedly ahead.
    pub fn should_throttle(&self) -> (t: bool)
        ensures
            !self@.has_output ==> t == false,
    {
        match &self.out {
            Some(p) => out_prod_is_full(p),
            None => false,
        }
    }
}

/// The interleaved channel words of a frame sequence: x then y of every
/// frame, in order.
pub open spec fn interleave_spec(frames: Seq<XYSample>) -> Seq<u32>
    decreases frames.len(),
{
    if frames.len() == 0 {
        Seq::<u32>::empty()
    } else {
        seq![frames[0].x, frames[0].y] + interleave_spec(
            frames.subrange(1, frames.len() as int),
        )
    }
}

/// Interleaving one more frame appends its two channel words.
pub proof fn lemma_interleave_snoc(frames: Seq<XYSample>, f: XYSample)
    ensures
        interleave_spec(frames.push(f)) == interleave_spec(frames) + seq![f.x, f.y],
    decreases frames.len(),
{
    if frames.len() == 0 {
        assert(frames.push(f)[0] == f);
        assert(frames.push(f).subrange(1, 1) =~= Seq::<XYSample>::empty());
        assert(interleave_spec(frames.push(f)) == seq![f.x, f.y] + interleave_spec(
            Seq::<XYSample>::empty(),
        ));
        assert(seq![f.x, f.y] + Seq::<u32>::empty() =~= seq![f.x, f.y]);
        assert(Seq::<u32>::empty() + seq![f.x, f.y] =~= seq![f.x, f.y]);
    } else {
        assert(frames.push(f)[0] == frames[0]);
        assert(frames.push(f).subrange(1, frames.len() as int + 1) =~= frames.subrange(
            1,
            frames.len() as int,
        ).push(f));
        lemma_interleave_snoc(frames.subrange(1, frames.len() as int), f);
        assert(seq![frames[0].x, frames[0].y] + (interleave_spec(
            frames.subrange(1, frames.len() as int),
        ) + seq![f.x, f.y]) =~= (seq![frames[0].x, frames[0].y] + interleave_spec(
            frames.subrange(1, frames.len() as int),
        )) + seq![f.x, f.y]);
    }
}

/// Create the audio-output ring: interleaved channel words, producer for
/// the decode loop, consumer for the output callback. Fresh halves carry
/// no history.
pub fn make_output_ring(capacity: usize) -> (h: (OutputProducer, OutputConsumer))
    requires
        capacity >= 1,
    ensures
        out_prod_offered(h.0) == Seq::<u32>::empty(),
        out_cons_taken(h.1) == Seq::<u32>::empty(),
        out_cons_polls(h.1) == 0,
{
    out_ring_new(capacity)
}

/// What a pop outcome delivers: the word, or silence for an empty poll.
pub open spec fn sample_or_silence_spec(o: Option<u32>) -> u32 {
    match o {
        Some(v) => v,
        None => 0u32,
    }
}

/// The channel words a pop outcome contributed to the taken history.
pub open spec fn opt_words(o: Option<u32>) -> Seq<u32> {
    match o {
        Some(v) => seq![v],
        None => Seq::<u32>::empty(),
    }
}

/// The output callback's underrun rule: a missing channel word is
/// replaced by silence, never by blocking.
pub fn sample_or_silence(o: Option<u32>) -> (r: u32)
    ensures
        r == sample_or_silence_spec(o),
{
    match o {
        Some(v) => v,
        None => 0u32,
    }
}

/// Pop the next interleaved stereo pair for the output callback. Exactly
/// two polls are made on the ring, never blocking; each word that arrived
/// extends the half's taken history, and silence stands in exactly where
/// a poll found the ring empty.
pub fn next_output_frame(c: &mut OutputConsumer) -> (fr: (u32, u32))
    ensures
        out_cons_polls(*final(c)) == out_cons_polls(*old(c)) + 2,
        exists|o1: Option<u32>, o2: Option<u32>|
            out_cons_taken(*final(c)) == out_cons_taken(*old(c)) + opt_words(o1) + opt_words(o2)
                && fr.0 == sample_or_silence_spec(o1) && fr.1 == sample_or_silence_spec(o2),
{
    let o1 = out_cons_try_pop(c);
    let o2 = out_cons_try_pop(c);
    let left = sample_or_silence(o1);
    let right = sample_or_silence(o2);
    proof {
        assert(out_cons_taken(*c) =~= out_cons_taken(*old(c)) + opt_words(o1) + opt_words(o2));
        assert(out_cons_taken(*c) == out_cons_taken(*old(c)) + opt_words(o1) + opt_words(o2)
            && left == sample_or_silence_spec(o1) && right == sample_or_silence_spec(o2));
    }
    (left, right)
}

} // verus!
