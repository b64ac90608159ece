//! The live-capture producer: the capture state machine and the per-block
//! work of the input callback.
//!
//! Opening the input device and normalizing its native encoding are
//! outside work; the callback hands in each block's channel words after
//! gain was applied. What is verified here is everything the callback
//! decides: the cheap skip while capture is off, how interleaved channel
//! words become stereo frames with mono mirrored to both channels, and
//! that every frame of an active block is offered to the buffer in order.

use vstd::prelude::*;

use crate::buffer::{buf_push_seq_spec, BufModel, SampleBuffer};
use crate::frame::{pack_spec, XYSample};
use crate::ring::{word_load, word_new, word_store, SharedWord};

verus! {

/// The frames a block of interleaved channel words carries: word `i * channels`
/// drives X, the following word drives Y, and a mono block mirrors its one
/// channel to both.
pub open spec fn frames_of_interleaved(data: Seq<u32>, channels: nat) -> Seq<XYSample> {
    Seq::<XYSample>::new(data.len() / channels, |i: int|
        XYSample {
            x: data[i * channels],
            y: if channels > 1 {
                data[i * channels + 1]
            } else {
                data[i * channels]
            },
        })
}

/// Group a block of interleaved channel words into stereo frames: the
/// first word of each group is the left channel, the second the right,
/// and mono input is mirrored to both. Channels beyond the second are
/// dropped; a trailing partial group is dropped too.
pub fn frames_from_interleaved(data: &Vec<u32>, channels: usize) -> (r: Vec<XYSample>)
    requires
        channels >= 1,
    ensures
        r@ == frames_of_interleaved(data@, channels as nat),
{
    let total = data.len() / channels;
    let mut r: Vec<XYSample> = Vec::new();
    let mut i: usize = 0;
    while i < total
        invariant
            channels >= 1,
            data@.len() <= usize::MAX,
            total == data@.len() / channels as nat,
            i <= total,
            r@.len() == i,
            forall|j: int|
                0 <= j < i ==> r@[j] == frames_of_interleaved(data@, channels as nat)[j],
        decreases total - i,
    {
        proof {
            assert((channels as int) * (total as int) <= data@.len()) by {
                vstd::arithmetic::div_mod::lemma_fundamental_div_mod(
                    data@.len() as int,
                    channels as int,
                );
                vstd::arithmetic::div_mod::lemma_mod_bound(data@.len() as int, channels as int);
            }
            assert(i * channels + channels <= data@.len()) by (nonlinear_arith)
                requires
                    channels >= 1,
                    i < total,
                    (channels as int) * (total as int) <= data@.len(),
            ;
        }
        let base = i * channels;
        let x = data[base];
        let y = if channels > 1 {
            data[base + 1]
        } else {
            data[base]
        };
        r.push(XYSample { x, y });
        i = i + 1;
    }
    proof {
        assert(r@ =~= frames_of_interleaved(data@, channels as nat));
    }
    r
}

/// What a capture toggle asks the caller to do.
#[derive(Debug, Clone, Copy, PartialEq, Eq, Structural)]
pub enum CaptureAction {
    /// Open the selected device and start its stream.
    StartRequested,
    /// Tear the stream down.
    StopRequested,
}

/// Audio input capture: the capturing flag the real-time callback checks,
/// and the per-block fan-in to the sample buffer.
pub struct AudioInput {
    capturing: bool,
    /// Gain as the raw 32-bit word of the scalar, bound by the UI.
    /// Published to the capture callback by [`Self::sync_gain`].
    pub gain: u32,
    gain_atomic: SharedWord,
    /// Available input device names, as the last enumeration reported them.
    pub devices: Vec<String>,
    /// Selected device index.
    pub selected_device: usize,
    /// Status message for display.
    pub status: String,
}

impl AudioInput {
    /// A fresh handler: not capturing. Enumerating devices is the
    /// caller's work; it fills `devices` afterwards.
    pub fn new() -> (a: Self)
        ensures
            !a.is_capturing_spec(),
            a.gain_word() == 0x3F80_0000u32,
    {
        AudioInput {
            capturing: false,
            // The word of the scalar one: unity gain.
            gain: 0x3F80_0000,
            gain_atomic: word_new(0x3F80_0000),
            devices: Vec::new(),
            selected_device: 0,
            status: "Stopped".to_owned(),
        }
    }

    /// The UI-bound gain word.
    pub closed spec fn gain_word(&self) -> u32 {
        self.gain
    }

    /// Publish the UI-bound gain into the shared word the capture
    /// callback reads each block, so a change applies within one block's
    /// latency.
    pub fn sync_gain(&self) {
        word_store(&self.gain_atomic, self.gain);
    }

    /// The latest published gain word, as the capture callback observes
    /// it when scaling a block. A momentary reading of shared state.
    pub fn observed_gain(&self) -> u32 {
        word_load(&self.gain_atomic)
    }


    /// Whether capture is active.
    pub closed spec fn is_capturing_spec(&self) -> bool {
        self.capturing
    }

    /// Whether capture is active.
    pub fn is_capturing(&self) -> (b: bool)
        ensures
            b == self.is_capturing_spec(),
    {
        self.capturing
    }

    /// Record that the device stream started: from here on the callback
    /// forwards blocks.
    pub fn on_stream_started(&mut self)
        ensures
            final(self).is_capturing_spec(),
            final(self).gain_word() == old(self).gain_word(),
    {
        self.sync_gain();
        self.capturing = true;
        self.status = "Capturing".to_owned();
    }

    /// Stop capture: the callback skips every later block, so no thread
    /// join is needed.
    pub fn stop(&mut self)
        ensures
            !final(self).is_capturing_spec(),
            final(self).gain_word() == old(self).gain_word(),
    {
        self.capturing = false;
        self.status = "Stopped".to_owned();
    }

    /// What a toggle asks for: stop while capturing, start otherwise.
    pub fn toggle(&self) -> (a: CaptureAction)
        ensures
            a == if self.is_capturing_spec() {
                CaptureAction::StopRequested
            } else {
                CaptureAction::StartRequested
            },
    {
        if self.capturing {
            CaptureAction::StopRequested
        } else {
            CaptureAction::StartRequested
        }
    }

    /// One delivered block: skipped entirely while capture is off — the
    /// cheap real-time abort path — and otherwise every frame is offered
    /// to the buffer in order, never blocking.
    pub fn capture_block(&self, frames: &Vec<XYSample>, buffer: &mut SampleBuffer)
        requires
            old(buffer).wf(),
        ensures
            final(buffer).wf(),
            !self.is_capturing_spec() ==> final(buffer)@ == old(buffer)@,
            self.is_capturing_spec() && old(buffer)@.unsplit() ==> final(buffer)@
                == buf_push_seq_spec(
                old(buffer)@,
                frames@.map_values(|f: XYSample| pack_spec(f)),
            ),
            self.is_capturing_spec() && old(buffer)@.producer_taken ==> final(buffer)@ == old(
                buffer,
            )@,
            self.is_capturing_spec() && !old(buffer)@.producer_taken && old(
                buffer,
            )@.consumer_taken ==> final(buffer)@ == (BufModel {
                written: old(buffer)@.written + frames@.len(),
                ..old(buffer)@
            }) && final(buffer).offered_words() == old(buffer).offered_words() + frames@.map_values(
                |f: XYSample| pack_spec(f),
            ),
    {
        if !self.capturing {
            return;
        }
        let n = frames.len();
        let ghost packed = frames@.map_values(|f: XYSample| pack_spec(f));
        let mut i: usize = 0;
        while i < n
            invariant
                n == frames@.len(),
                i <= n,
                buffer.wf(),
                packed == frames@.map_values(|f: XYSample| pack_spec(f)),
                old(buffer)@.unsplit() ==> buffer@ == buf_push_seq_spec(
                    old(buffer)@,
                    packed.take(i as int),
                ),
                old(buffer)@.producer_taken ==> buffer@ == old(buffer)@,
                !old(buffer)@.producer_taken && old(buffer)@.consumer_taken ==> buffer@ == (
                BufModel { written: old(buffer)@.written + i as nat, ..old(buffer)@ })
                    && buffer.offered_words() == old(buffer).offered_words() + packed.take(
                    i as int,
                ),
                buffer@.producer_taken == old(buffer)@.producer_taken,
                buffer@.consumer_taken == old(buffer)@.consumer_taken,
            decreases n - i,
        {
            proof {
                if old(buffer)@.unsplit() {
                    crate::buffer::lemma_push_seq_snoc(
                        old(buffer)@,
                        packed.take(i as int),
                        packed[i as int],
                    );
                    assert(packed.take(i as int).push(packed[i as int]) =~= packed.take(
                        i as int + 1,
                    ));
                }
            }
            let _ = buffer.push(frames[i]);
            i = i + 1;
        }
        proof {
            assert(packed.take(n as int) =~= packed);
        }
    }
}

} // verus!
