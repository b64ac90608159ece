//! The shared sample buffer: a fixed-capacity SPSC ring feeding a
//! consumer-owned circular snapshot.
//!
//! Producers push frames into the ring and never block: when the ring is
//! full a frame is dropped silently, and only a statistics counter records
//! that it was offered. The consumer drains the ring into its snapshot and
//! reads the snapshot back oldest-first.
//!
//! While neither handle has been taken out of a [`SampleBuffer`], the
//! buffer owns both halves of the ring and every operation is pinned down
//! exactly by the model below. Once a handle leaves, its half of the ring
//! may live on another thread; what stays provable is each half's own call
//! history — which words it offered to the ring, which it took, and how
//! often it polled — and the contracts here state that exactly, for every
//! interleaving.

use vstd::prelude::*;

use crate::frame::{pack, pack_spec, unpack, unpack_spec, XYSample};
use crate::ring::{
    counter_add, counter_clone, counter_get, counter_new, frame_cons_polls, frame_cons_taken,
    frame_cons_try_pop, frame_prod_offered, frame_prod_try_push, frame_ring_cap,
    frame_ring_items, frame_ring_new, frame_ring_split, frame_ring_try_pop, frame_ring_try_push,
    FrameRing, FrameRingConsumer, FrameRingProducer, SharedCounter,
};

verus! {

/// The mathematical state of a sample buffer.
#[verifier::ext_equal]
pub ghost struct BufModel {
    /// Frames queued in the ring, oldest first. Meaningful only while the
    /// buffer still owns both halves of the ring; empty afterwards.
    pub ring: Seq<u64>,
    /// Fixed ring capacity: twice the snapshot capacity, as headroom for
    /// producer bursts.
    pub ring_cap: nat,
    /// The snapshot slots, indexed by physical position.
    pub snap: Seq<u64>,
    /// The snapshot's write cursor: the next slot to overwrite, which is
    /// also the oldest slot.
    pub cursor: nat,
    /// The snapshot capacity.
    pub cap: nat,
    /// How many frames were offered through this buffer's own push calls.
    pub written: nat,
    /// Whether the producer handle has been taken out.
    pub producer_taken: bool,
    /// Whether the consumer handle has been taken out.
    pub consumer_taken: bool,
}

impl BufModel {
    /// The buffer still owns both halves of the ring.
    pub open spec fn unsplit(self) -> bool {
        !self.producer_taken && !self.consumer_taken
    }

    /// Shape constraints that every reachable buffer satisfies.
    pub open spec fn wf(self) -> bool {
        &&& self.cap >= 1
        &&& self.ring_cap == self.cap * 2
        &&& self.ring.len() <= self.ring_cap
        &&& self.snap.len() == self.cap
        &&& self.cursor < self.cap
        &&& (!self.unsplit() ==> self.ring.len() == 0)
    }
}

/// A fresh buffer: empty ring with twice the display capacity, snapshot
/// pre-filled with silent frames, cursor at zero, both handles available.
pub open spec fn buf_new_spec(cap: nat) -> BufModel {
    BufModel {
        ring: Seq::<u64>::empty(),
        ring_cap: cap * 2,
        snap: Seq::<u64>::new(cap, |i: int| 0u64),
        cursor: 0,
        cap: cap,
        written: 0,
        producer_taken: false,
        consumer_taken: false,
    }
}

/// One push through an unsplit buffer: the frame is appended when the ring
/// has room and dropped otherwise; the offered count always grows.
pub open spec fn buf_push_spec(m: BufModel, v: u64) -> BufModel {
    BufModel {
        ring: if m.ring.len() < m.ring_cap {
            m.ring.push(v)
        } else {
            m.ring
        },
        written: m.written + 1,
        ..m
    }
}

/// A sequence of pushes, in order.
pub open spec fn buf_push_seq_spec(m: BufModel, vs: Seq<u64>) -> BufModel
    decreases vs.len(),
{
    if vs.len() == 0 {
        m
    } else {
        buf_push_seq_spec(buf_push_spec(m, vs[0]), vs.subrange(1, vs.len() as int))
    }
}

/// Writing a drained sequence into the snapshot at the cursor, advancing
/// the cursor modulo the capacity. Returns the new slots and cursor.
pub open spec fn drain_spec(snap: Seq<u64>, cursor: nat, cap: nat, r: Seq<u64>) -> (Seq<u64>, nat)
    decreases r.len(),
{
    if r.len() == 0 {
        (snap, cursor)
    } else {
        drain_spec(
            snap.update(cursor as int, r[0]),
            ((cursor + 1) % cap) as nat,
            cap,
            r.subrange(1, r.len() as int),
        )
    }
}

/// A refresh of an unsplit buffer: the whole ring is drained into the
/// snapshot.
pub open spec fn buf_refresh_spec(m: BufModel) -> BufModel {
    BufModel {
        ring: Seq::<u64>::empty(),
        snap: drain_spec(m.snap, m.cursor, m.cap, m.ring).0,
        cursor: drain_spec(m.snap, m.cursor, m.cap, m.ring).1,
        ..m
    }
}

/// Reading the snapshot oldest-first: the slot at the cursor is the oldest,
/// and the read walks the slots circularly from there.
pub open spec fn buf_read_spec(m: BufModel) -> Seq<u64> {
    Seq::<u64>::new(m.cap, |i: int| m.snap[((m.cursor + i) % (m.cap as int))])
}

/// A buffer after some unknown sequence of frames was drained into its
/// snapshot. Used for the operations whose ring half may sit on another
/// thread: whatever arrives, it is written in arrival order at the cursor.
pub open spec fn buf_drained_spec(m: BufModel, d: Seq<u64>) -> BufModel {
    BufModel {
        snap: drain_spec(m.snap, m.cursor, m.cap, d).0,
        cursor: drain_spec(m.snap, m.cursor, m.cap, d).1,
        ..m
    }
}

/// Draining preserves the snapshot's length and keeps the cursor in range.
pub proof fn lemma_drain_wf(snap: Seq<u64>, cursor: nat, cap: nat, r: Seq<u64>)
    requires
        cap >= 1,
        cursor < cap,
        snap.len() == cap,
    ensures
        drain_spec(snap, cursor, cap, r).0.len() == cap,
        drain_spec(snap, cursor, cap, r).1 < cap,
    decreases r.len(),
{
    if r.len() > 0 {
        lemma_drain_wf(
            snap.update(cursor as int, r[0]),
            ((cursor + 1) % cap) as nat,
            cap,
            r.subrange(1, r.len() as int),
        );
    }
}

/// Draining one more frame after a sequence writes it at the cursor the
/// sequence left behind.
pub proof fn lemma_drain_snoc(snap: Seq<u64>, cursor: nat, cap: nat, r: Seq<u64>, x: u64)
    requires
        cap >= 1,
        cursor < cap,
        snap.len() == cap,
    ensures
        drain_spec(snap, cursor, cap, r.push(x)).0 == drain_spec(snap, cursor, cap, r).0.update(
            drain_spec(snap, cursor, cap, r).1 as int,
            x,
        ),
        drain_spec(snap, cursor, cap, r.push(x)).1 == (
        (drain_spec(snap, cursor, cap, r).1 + 1) % cap) as nat,
    decreases r.len(),
{
    lemma_drain_wf(snap, cursor, cap, r);
    if r.len() == 0 {
        assert(r.push(x)[0] == x);
        assert(r.push(x).subrange(1, 1) =~= Seq::<u64>::empty());
        assert(r.push(x).len() == 1);
        assert(drain_spec(snap, cursor, cap, r.push(x)) == drain_spec(
            snap.update(cursor as int, x),
            ((cursor + 1) % cap) as nat,
            cap,
            r.push(x).subrange(1, 1),
        ));
        assert(drain_spec(
            snap.update(cursor as int, x),
            ((cursor + 1) % cap) as nat,
            cap,
            Seq::<u64>::empty(),
        ).0 == snap.update(cursor as int, x));
        assert(drain_spec(snap, cursor, cap, r).0 == snap);
        assert(drain_spec(snap, cursor, cap, r).1 == cursor);
    } else {
        assert(r.push(x).subrange(1, r.len() as int + 1) =~= r.subrange(1, r.len() as int).push(x));
        assert(r.push(x)[0] == r[0]);
        lemma_drain_snoc(
            snap.update(cursor as int, r[0]),
            ((cursor + 1) % cap) as nat,
            cap,
            r.subrange(1, r.len() as int),
            x,
        );
    }
}

/// Producer half of the sample buffer (owned by the audio thread).
pub struct SampleProducer {
    prod: FrameRingProducer,
    counter: SharedCounter,
}

impl View for SampleProducer {
    type V = Seq<u64>;

    /// The packed frames offered to the ring through this handle, in the
    /// order they were pushed.
    closed spec fn view(&self) -> Seq<u64> {
        frame_prod_offered(self.prod)
    }
}

/// Consumer half of the sample buffer (owned by the UI thread).
pub struct SampleConsumer {
    cons: FrameRingConsumer,
    counter: SharedCounter,
    snapshot: Vec<u64>,
    capacity: usize,
    ring_cap: usize,
    write_pos: usize,
}

/// The mathematical state of a consumer handle: its snapshot and the
/// history of its ring half.
#[verifier::ext_equal]
pub ghost struct ConsModel {
    pub snap: Seq<u64>,
    pub cursor: nat,
    pub cap: nat,
    /// The words taken from the ring through this handle so far, in order.
    pub taken: Seq<u64>,
    /// How many pop calls this handle has made; one more poll than taken
    /// words means a poll found the ring empty.
    pub polls: nat,
}

impl View for SampleConsumer {
    type V = ConsModel;

    closed spec fn view(&self) -> ConsModel {
        ConsModel {
            snap: self.snapshot@,
            cursor: self.write_pos as nat,
            cap: self.capacity as nat,
            taken: frame_cons_taken(self.cons),
            polls: frame_cons_polls(self.cons),
        }
    }
}

impl SampleConsumer {
    /// Shape constraints that every reachable consumer satisfies.
    pub closed spec fn wf(&self) -> bool {
        &&& self.capacity >= 1
        &&& self.snapshot@.len() == self.capacity
        &&& self.write_pos < self.capacity
        &&& self.ring_cap == self.capacity * 2
    }
}

/// Thread-safe sample buffer built on a lock-free ring.
///
/// The buffer starts out owning both halves of the ring; `take_producer`
/// and `take_consumer` each hand their half out at most once.
pub struct SampleBuffer {
    chan: Option<FrameRing>,
    prod_half: Option<FrameRingProducer>,
    cons_half: Option<FrameRingConsumer>,
    snapshot: Vec<u64>,
    write_pos: usize,
    capacity: usize,
    ring_cap: usize,
    counter: SharedCounter,
    written: Ghost<nat>,
    written_local: u64,
    producer_taken: bool,
    consumer_taken: bool,
}

impl View for SampleBuffer {
    type V = BufModel;

    closed spec fn view(&self) -> BufModel {
        BufModel {
            ring: match self.chan {
                Some(ch) => frame_ring_items(ch),
                None => Seq::<u64>::empty(),
            },
            ring_cap: self.ring_cap as nat,
            snap: self.snapshot@,
            cursor: self.write_pos as nat,
            cap: self.capacity as nat,
            written: self.written@,
            producer_taken: self.producer_taken,
            consumer_taken: self.consumer_taken,
        }
    }
}

impl SampleBuffer {
    /// Shape constraints that every reachable buffer satisfies, tying the
    /// handle bookkeeping to which ring halves are still present.
    pub closed spec fn wf(&self) -> bool {
        &&& self@.wf()
        &&& (match (self.producer_taken, self.consumer_taken) {
            (false, false) => self.chan is Some && self.prod_half is None
                && self.cons_half is None,
            (true, false) => self.chan is None && self.prod_half is None
                && self.cons_half is Some,
            (false, true) => self.chan is None && self.prod_half is Some
                && self.cons_half is None,
            (true, true) => self.chan is None && self.prod_half is None
                && self.cons_half is None,
        })
        &&& (self.chan is Some ==> frame_ring_cap(self.chan->0) == self.ring_cap as nat)
        &&& (!self.producer_taken && self.written@ <= u64::MAX ==> self.written_local as nat
            == self.written@)
    }

    /// The words offered to the ring through the buffer's own producer
    /// half, once the ring was split; empty while unsplit or after the
    /// producer handle left.
    pub closed spec fn offered_words(&self) -> Seq<u64> {
        match self.prod_half {
            Some(p) => frame_prod_offered(p),
            None => Seq::<u64>::empty(),
        }
    }

    /// The words taken from the ring through the buffer's own consumer
    /// half, once the ring was split; empty while unsplit or after the
    /// consumer handle left.
    pub closed spec fn taken_words(&self) -> Seq<u64> {
        match self.cons_half {
            Some(c) => frame_cons_taken(c),
            None => Seq::<u64>::empty(),
        }
    }

    /// How many pop calls the buffer's own consumer half has made; one
    /// more poll than taken words means a poll found the ring empty.
    pub closed spec fn polls_made(&self) -> nat {
        match self.cons_half {
            Some(c) => frame_cons_polls(c),
            None => 0,
        }
    }

    /// Create a new sample buffer with the given display capacity.
    ///
    /// The ring gets twice that capacity as headroom, so a burst of pushes
    /// is not dropped before the consumer can drain.
    pub fn new(capacity: usize) -> (b: Self)
        requires
            1 <= capacity,
            capacity * 2 <= usize::MAX,
        ensures
            b.wf(),
            b@ == buf_new_spec(capacity as nat),
    {
        let ring_cap: usize = capacity * 2;
        let chan = frame_ring_new(ring_cap);
        let mut snapshot: Vec<u64> = Vec::new();
        let mut i: usize = 0;
        while i < capacity
            invariant
                i <= capacity,
                snapshot@.len() == i,
                forall|j: int| 0 <= j < i ==> snapshot@[j] == 0u64,
            decreases capacity - i,
        {
            snapshot.push(0u64);
            i = i + 1;
        }
        let b = SampleBuffer {
            chan: Some(chan),
            prod_half: None,
            cons_half: None,
            snapshot,
            write_pos: 0,
            capacity,
            ring_cap,
            counter: counter_new(),
            written: Ghost(0),
            written_local: 0,
            producer_taken: false,
            consumer_taken: false,
        };
        proof {
            assert(b@.snap =~= buf_new_spec(capacity as nat).snap);
            assert(b@ =~= buf_new_spec(capacity as nat));
        }
        b
    }

    /// Push a frame through the buffer's own producer half.
    ///
    /// Never blocks and never fails observably: with the producer handle
    /// still present the call returns `true` and counts the frame even
    /// when the ring is full and the frame itself is dropped. Once the
    /// producer handle has been taken out, the call is a no-op returning
    /// `false`.
    pub fn push(&mut self, sample: XYSample) -> (ok: bool)
        requires
            old(self).wf(),
        ensures
            final(self).wf(),
            ok == !old(self)@.producer_taken,
            old(self)@.producer_taken ==> final(self)@ == old(self)@,
            old(self)@.unsplit() ==> final(self)@ == buf_push_spec(old(self)@, pack_spec(sample)),
            !old(self)@.producer_taken && old(self)@.consumer_taken ==> final(self)@ == (BufModel {
                written: old(self)@.written + 1,
                ..old(self)@
            }) && final(self).offered_words() == old(self).offered_words().push(
                pack_spec(sample),
            ),
    {
        if self.producer_taken {
            return false;
        }
        let w = pack(sample);
        match &mut self.chan {
            Some(ch) => {
                let _ = frame_ring_try_push(ch, w);
            },
            None => {
                match &mut self.prod_half {
                    Some(p) => {
                        let _ = frame_prod_try_push(p, w);
                    },
                    None => {},
                }
            },
        }
        counter_add(&self.counter, 1);
        if self.written_local < u64::MAX {
            self.written_local = self.written_local + 1;
        }
        proof {
            self.written@ = self.written@ + 1;
        }
        true
    }

    /// Drain whatever is available and return the full snapshot reordered
    /// oldest-first.
    ///
    /// With the consumer handle still present this is the drain-then-read
    /// path. Once the consumer handle has been taken out, fresh frames
    /// belong to that handle: the call returns the last successfully read
    /// snapshot, unchanged and without blocking.
    pub fn get_samples(&mut self) -> (r: Vec<XYSample>)
        requires
            old(self).wf(),
        ensures
            final(self).wf(),
            r@.len() == old(self)@.cap,
            old(self)@.consumer_taken ==> final(self)@ == old(self)@
                && (forall|i: int|
                    0 <= i < r@.len() ==> r@[i] == unpack_spec(buf_read_spec(old(self)@)[i])),
            old(self)@.unsplit() ==> final(self)@ == buf_refresh_spec(old(self)@)
                && (forall|i: int|
                    0 <= i < r@.len() ==> r@[i] == unpack_spec(
                        buf_read_spec(buf_refresh_spec(old(self)@))[i],
                    )),
            old(self)@.producer_taken && !old(self)@.consumer_taken ==> old(
                self,
            ).taken_words().is_prefix_of(final(self).taken_words()) && ({
                let d = final(self).taken_words().skip(old(self).taken_words().len() as int);
                &&& final(self)@ == buf_drained_spec(old(self)@, d)
                &&& d.len() <= old(self)@.cap * 2
                &&& (d.len() < old(self)@.cap * 2 ==> final(self).polls_made() == old(
                    self,
                ).polls_made() + d.len() + 1)
                &&& (d.len() == old(self)@.cap * 2 ==> final(self).polls_made() == old(
                    self,
                ).polls_made() + d.len())
            }) && (forall|i: int|
                0 <= i < r@.len() ==> r@[i] == unpack_spec(buf_read_spec(final(self)@)[i])),
    {
        if self.consumer_taken {
            return read_rotated(&self.snapshot, self.write_pos, self.capacity);
        }
        match &mut self.chan {
            Some(ch) => {
                drain_ring(ch, &mut self.snapshot, &mut self.write_pos, self.capacity);
            },
            None => {
                match &mut self.cons_half {
                    Some(c) => {
                        drain_weak(
                            c,
                            &mut self.snapshot,
                            &mut self.write_pos,
                            self.capacity,
                            self.ring_cap,
                        );
                    },
                    None => {},
                }
            },
        }
        proof {
            lemma_drain_wf(old(self)@.snap, old(self)@.cursor, old(self)@.cap, old(self)@.ring);
            if old(self)@.unsplit() {
                assert(self.chan is Some);
                assert(frame_ring_items(self.chan->0) =~= Seq::<u64>::empty());
                assert(self@ =~= buf_refresh_spec(old(self)@));
            } else {
                let d = self.taken_words().skip(old(self).taken_words().len() as int);
                assert(self@ =~= buf_drained_spec(old(self)@, d));
            }
        }
        read_rotated(&self.snapshot, self.write_pos, self.capacity)
    }

    /// Take the producer handle. It can be obtained at most once: the
    /// second and every later call reports the handle as already taken by
    /// returning `None`, while the first call succeeds.
    pub fn take_producer(&mut self) -> (p: Option<SampleProducer>)
        requires
            old(self).wf(),
        ensures
            final(self).wf(),
            p is Some <==> !old(self)@.producer_taken,
            old(self)@.producer_taken ==> final(self)@ == old(self)@,
            !old(self)@.producer_taken ==> final(self)@ == (BufModel {
                ring: Seq::<u64>::empty(),
                producer_taken: true,
                ..old(self)@
            }) && p->0@ == old(self).offered_words(),
    {
        if self.producer_taken {
            return None;
        }
        self.producer_taken = true;
        let half = self.chan.take();
        let prod = match half {
            Some(ch) => {
                let (p, c) = frame_ring_split(ch);
                self.cons_half = Some(c);
                p
            },
            None => {
                match self.prod_half.take() {
                    Some(p) => p,
                    None => {
                        proof {
                            assert(false);
                        }
                        vstd::pervasive::unreached()
                    },
                }
            },
        };
        proof {
            assert(self@ =~= (BufModel {
                ring: Seq::<u64>::empty(),
                producer_taken: true,
                ..old(self)@
            }));
        }
        Some(SampleProducer { prod, counter: counter_clone(&self.counter) })
    }

    /// Take the consumer handle. It can be obtained at most once: the
    /// second and every later call reports the handle as already taken by
    /// returning `None`, while the first call succeeds. The handle starts
    /// from the snapshot and cursor as they stand; the buffer keeps them
    /// too, so reads through its own surface keep returning the last
    /// successfully read snapshot.
    pub fn take_consumer(&mut self) -> (c: Option<SampleConsumer>)
        requires
            old(self).wf(),
        ensures
            final(self).wf(),
            c is Some <==> !old(self)@.consumer_taken,
            old(self)@.consumer_taken ==> final(self)@ == old(self)@,
            !old(self)@.consumer_taken ==> final(self)@ == (BufModel {
                ring: Seq::<u64>::empty(),
                consumer_taken: true,
                ..old(self)@
            }) && c->0.wf() && c->0@ == (ConsModel {
                snap: old(self)@.snap,
                cursor: old(self)@.cursor,
                cap: old(self)@.cap,
                taken: old(self).taken_words(),
                polls: old(self).polls_made(),
            }),
    {
        if self.consumer_taken {
            return None;
        }
        self.consumer_taken = true;
        let half = self.chan.take();
        let cons = match half {
            Some(ch) => {
                let (p, c) = frame_ring_split(ch);
                self.prod_half = Some(p);
                c
            },
            None => {
                match self.cons_half.take() {
                    Some(c) => c,
                    None => {
                        proof {
                            assert(false);
                        }
                        vstd::pervasive::unreached()
                    },
                }
            },
        };
        let snapshot = copy_slots(&self.snapshot);
        let write_pos = self.write_pos;
        proof {
            assert(self@ =~= (BufModel {
                ring: Seq::<u64>::empty(),
                consumer_taken: true,
                ..old(self)@
            }));
        }
        Some(
            SampleConsumer {
                cons,
                counter: counter_clone(&self.counter),
                snapshot,
                capacity: self.capacity,
                ring_cap: self.ring_cap,
                write_pos,
            },
        )
    }

    /// The total number of frames offered to this buffer.
    ///
    /// While the producer handle is still inside, every offered frame went
    /// through the buffer's own push, so the count is exact. Once the
    /// handle has left, a producer on another thread may be pushing, and
    /// the shared statistics counter is read instead: a momentary,
    /// display-only figure with relaxed ordering.
    pub fn samples_written(&self) -> (r: u64)
        requires
            self.wf(),
        ensures
            !self@.producer_taken && self@.written <= u64::MAX ==> r == self@.written,
    {
        if !self.producer_taken {
            self.written_local
        } else {
            counter_get(&self.counter)
        }
    }
}

impl SampleProducer {
    /// Push a single frame into the ring.
    ///
    /// Lock-free and safe to call from audio callbacks: the call never
    /// blocks and never fails observably. The packed frame is offered to
    /// the ring; if the ring is full it is dropped there, and the shared
    /// statistics counter still advances.
    pub fn push(&mut self, sample: XYSample)
        ensures
            final(self)@ == old(self)@.push(pack_spec(sample)),
    {
        let _ = frame_prod_try_push(&mut self.prod, pack(sample));
        counter_add(&self.counter, 1);
    }

    /// Push several frames in order: each is offered to the ring, frames
    /// that do not fit are dropped there, and the shared statistics
    /// counter advances by the whole length.
    pub fn push_slice(&mut self, samples: &[XYSample])
        ensures
            final(self)@ == old(self)@ + samples@.map_values(|f: XYSample| pack_spec(f)),
    {
        let n = samples.len();
        let ghost packed = samples@.map_values(|f: XYSample| pack_spec(f));
        let ghost o0 = frame_prod_offered(self.prod);
        let mut i: usize = 0;
        proof {
            assert(o0 + packed.take(0) =~= o0);
        }
        while i < n
            invariant
                n == samples@.len(),
                i <= n,
                packed == samples@.map_values(|f: XYSample| pack_spec(f)),
                frame_prod_offered(self.prod) == o0 + packed.take(i as int),
            decreases n - i,
        {
            proof {
                assert((o0 + packed.take(i as int)).push(packed[i as int]) =~= o0 + packed.take(
                    i as int + 1,
                ));
            }
            let _ = frame_prod_try_push(&mut self.prod, pack(samples[i]));
            i = i + 1;
        }
        counter_add(&self.counter, n as u64);
        proof {
            assert(o0 + packed.take(n as int) =~= o0 + packed);
        }
    }
}

/// The snapshot of a consumer handle read oldest-first.
pub open spec fn cons_read_spec(m: ConsModel) -> Seq<u64> {
    Seq::<u64>::new(m.cap, |i: int| m.snap[((m.cursor + i) % (m.cap as int))])
}

impl SampleConsumer {
    /// Drain the frames currently available from the ring into the
    /// snapshot, advancing the cursor circularly.
    ///
    /// The producer half may be pushing concurrently, so the words are not
    /// known in advance — but exactly the words taken from the ring through
    /// this handle land, in arrival order, never reordered or invented.
    /// Draining goes on until a poll finds the ring empty, or a whole
    /// ring's worth (twice the display capacity) arrived.
    pub fn update(&mut self)
        requires
            old(self).wf(),
        ensures
            final(self).wf(),
            final(self)@.cap == old(self)@.cap,
            old(self)@.taken.is_prefix_of(final(self)@.taken),
            ({
                let d = final(self)@.taken.skip(old(self)@.taken.len() as int);
                &&& final(self)@.snap == drain_spec(
                    old(self)@.snap,
                    old(self)@.cursor,
                    old(self)@.cap,
                    d,
                ).0
                &&& final(self)@.cursor == drain_spec(
                    old(self)@.snap,
                    old(self)@.cursor,
                    old(self)@.cap,
                    d,
                ).1
                &&& d.len() <= old(self)@.cap * 2
                &&& (d.len() < old(self)@.cap * 2 ==> final(self)@.polls == old(self)@.polls
                    + d.len() + 1)
                &&& (d.len() == old(self)@.cap * 2 ==> final(self)@.polls == old(self)@.polls
                    + d.len())
            }),
    {
        drain_weak(
            &mut self.cons,
            &mut self.snapshot,
            &mut self.write_pos,
            self.capacity,
            self.ring_cap,
        );
    }

    /// The full snapshot in chronological order, oldest first. Call
    /// [`Self::update`] first to get the latest frames; without it the
    /// same (stale) snapshot is returned again.
    pub fn get_samples(&self) -> (r: Vec<XYSample>)
        requires
            self.wf(),
        ensures
            r@.len() == self@.cap,
            forall|i: int|
                0 <= i < r@.len() ==> r@[i] == unpack_spec(cons_read_spec(self@)[i]),
    {
        read_rotated(&self.snapshot, self.write_pos, self.capacity)
    }

    /// The total number of frames offered by every producer of this
    /// buffer, as recorded by the shared statistics counter. The counter
    /// is read with relaxed ordering: a momentary figure for display only.
    pub fn samples_written(&self) -> u64 {
        counter_get(&self.counter)
    }
}

/// Drain the whole ring into the snapshot, advancing the cursor circularly.
/// This is the exactly-modelled path: the buffer owns both halves.
fn drain_ring(ch: &mut FrameRing, snapshot: &mut Vec<u64>, write_pos: &mut usize, capacity: usize)
    requires
        capacity >= 1,
        old(snapshot)@.len() == capacity,
        *old(write_pos) < capacity,
    ensures
        frame_ring_cap(*final(ch)) == frame_ring_cap(*old(ch)),
        frame_ring_items(*final(ch)).len() == 0,
        final(snapshot)@ == drain_spec(
            old(snapshot)@,
            *old(write_pos) as nat,
            capacity as nat,
            frame_ring_items(*old(ch)),
        ).0,
        *final(write_pos) as nat == drain_spec(
            old(snapshot)@,
            *old(write_pos) as nat,
            capacity as nat,
            frame_ring_items(*old(ch)),
        ).1,
{
    let ghost snap0 = snapshot@;
    let ghost pos0 = *write_pos as nat;
    let ghost items0 = frame_ring_items(*ch);
    let ghost mut done: Seq<u64> = Seq::<u64>::empty();
    proof {
        assert(done + frame_ring_items(*ch) =~= items0);
    }
    loop
        invariant
            capacity >= 1,
            snap0.len() == capacity,
            pos0 < capacity,
            snapshot@.len() == capacity,
            *write_pos < capacity,
            frame_ring_cap(*ch) == frame_ring_cap(*old(ch)),
            items0 == frame_ring_items(*old(ch)),
            done + frame_ring_items(*ch) == items0,
            snapshot@ == drain_spec(snap0, pos0, capacity as nat, done).0,
            *write_pos as nat == drain_spec(snap0, pos0, capacity as nat, done).1,
        ensures
            frame_ring_items(*ch).len() == 0,
            frame_ring_cap(*ch) == frame_ring_cap(*old(ch)),
            snapshot@ == drain_spec(snap0, pos0, capacity as nat, items0).0,
            *write_pos as nat == drain_spec(snap0, pos0, capacity as nat, items0).1,
        decreases frame_ring_items(*ch).len(),
    {
        let ghost before = frame_ring_items(*ch);
        match frame_ring_try_pop(ch) {
            Some(w) => {
                proof {
                    lemma_drain_snoc(snap0, pos0, capacity as nat, done, w);
                    assert(done.push(w) + frame_ring_items(*ch) =~= items0);
                    done = done.push(w);
                }
                snapshot.set(*write_pos, w);
                *write_pos = (*write_pos + 1) % capacity;
            },
            None => {
                proof {
                    assert(done + frame_ring_items(*ch) =~= done);
                }
                break;
            },
        }
    }
}

/// Drain from a split consumer half for at most `rounds` frames. The
/// producer half may be refilling concurrently, so the words are not known
/// in advance — but exactly the words taken from this half land, in
/// arrival order. Popping goes on until a poll finds the ring empty or
/// `rounds` words arrived.
fn drain_weak(
    c: &mut FrameRingConsumer,
    snapshot: &mut Vec<u64>,
    write_pos: &mut usize,
    capacity: usize,
    rounds: usize,
)
    requires
        capacity >= 1,
        old(snapshot)@.len() == capacity,
        *old(write_pos) < capacity,
    ensures
        final(snapshot)@.len() == capacity,
        *final(write_pos) < capacity,
        frame_cons_taken(*old(c)).is_prefix_of(frame_cons_taken(*final(c))),
        ({
            let d = frame_cons_taken(*final(c)).skip(frame_cons_taken(*old(c)).len() as int);
            &&& final(snapshot)@ == drain_spec(
                old(snapshot)@,
                *old(write_pos) as nat,
                capacity as nat,
                d,
            ).0
            &&& *final(write_pos) as nat == drain_spec(
                old(snapshot)@,
                *old(write_pos) as nat,
                capacity as nat,
                d,
            ).1
            &&& d.len() <= rounds
            &&& (d.len() < rounds ==> frame_cons_polls(*final(c)) == frame_cons_polls(*old(c))
                + d.len() + 1)
            &&& (d.len() == rounds ==> frame_cons_polls(*final(c)) == frame_cons_polls(*old(c))
                + d.len())
        }),
{
    let ghost snap0 = snapshot@;
    let ghost pos0 = *write_pos as nat;
    let ghost t0 = frame_cons_taken(*c);
    let ghost p0 = frame_cons_polls(*c);
    let ghost mut done: Seq<u64> = Seq::<u64>::empty();
    let mut i: usize = 0;
    proof {
        assert(t0 + done =~= t0);
    }
    loop
        invariant_except_break
            frame_cons_polls(*c) == p0 + done.len(),
        invariant
            capacity >= 1,
            snap0.len() == capacity,
            pos0 < capacity,
            snapshot@.len() == capacity,
            *write_pos < capacity,
            i <= rounds,
            done.len() == i,
            frame_cons_taken(*c) == t0 + done,
            snapshot@ == drain_spec(snap0, pos0, capacity as nat, done).0,
            *write_pos as nat == drain_spec(snap0, pos0, capacity as nat, done).1,
        ensures
            done.len() <= rounds,
            frame_cons_taken(*c) == t0 + done,
            done.len() < rounds ==> frame_cons_polls(*c) == p0 + done.len() + 1,
            done.len() == rounds ==> frame_cons_polls(*c) == p0 + done.len(),
            snapshot@ == drain_spec(snap0, pos0, capacity as nat, done).0,
            *write_pos as nat == drain_spec(snap0, pos0, capacity as nat, done).1,
        decreases rounds - i,
    {
        if i >= rounds {
            break;
        }
        match frame_cons_try_pop(c) {
            Some(w) => {
                proof {
                    lemma_drain_snoc(snap0, pos0, capacity as nat, done, w);
                    assert((t0 + done).push(w) =~= t0 + done.push(w));
                    done = done.push(w);
                }
                snapshot.set(*write_pos, w);
                *write_pos = (*write_pos + 1) % capacity;
            },
            None => {
                break;
            },
        }
        i = i + 1;
    }
    proof {
        assert((t0 + done).skip(t0.len() as int) =~= done);
        assert(t0.is_prefix_of(t0 + done)) by {
            assert((t0 + done).subrange(0, t0.len() as int) =~= t0);
        }
    }
}

/// Adding an offset smaller than the capacity to an in-range cursor wraps
/// around at most once.
proof fn lemma_wrap_small(c: nat, k: nat, cap: nat)
    requires
        cap >= 1,
        c < cap,
        k <= cap,
    ensures
        (c + k) % cap == if c + k < cap {
            (c + k) as nat
        } else {
            (c + k - cap) as nat
        },
{
    if c + k < cap {
        vstd::arithmetic::div_mod::lemma_small_mod((c + k) as nat, cap);
    } else {
        vstd::arithmetic::div_mod::lemma_mod_sub_multiples_vanish((c + k) as int, cap as int);
        vstd::arithmetic::div_mod::lemma_small_mod((c + k - cap) as nat, cap);
    }
}

/// Draining moves the cursor forward by the drained length, modulo the
/// capacity.
pub proof fn lemma_drain_cursor(snap: Seq<u64>, cursor: nat, cap: nat, r: Seq<u64>)
    requires
        cap >= 1,
        cursor < cap,
        snap.len() == cap,
    ensures
        drain_spec(snap, cursor, cap, r).1 == (cursor + r.len()) % cap,
    decreases r.len(),
{
    if r.len() == 0 {
        vstd::arithmetic::div_mod::lemma_small_mod(cursor, cap);
    } else {
        let c1 = ((cursor + 1) % cap) as nat;
        let rest = r.subrange(1, r.len() as int);
        assert(c1 < cap) by {
            vstd::arithmetic::div_mod::lemma_mod_bound((cursor + 1) as int, cap as int);
        }
        lemma_drain_cursor(snap.update(cursor as int, r[0]), c1, cap, rest);
        assert((c1 + rest.len()) % cap == (cursor + r.len()) % cap) by {
            vstd::arithmetic::div_mod::lemma_add_mod_noop(
                (cursor + 1) as int,
                rest.len() as int,
                cap as int,
            );
            vstd::arithmetic::div_mod::lemma_add_mod_noop_right(
                c1 as int,
                rest.len() as int,
                cap as int,
            );
        }
    }
}

/// Draining at most `cap` frames writes each frame into its own slot,
/// walking circularly from the cursor, and leaves every other slot as it
/// was.
pub proof fn lemma_drain_partial(snap: Seq<u64>, cursor: nat, cap: nat, r: Seq<u64>)
    requires
        cap >= 1,
        cursor < cap,
        snap.len() == cap,
        r.len() <= cap,
    ensures
        forall|i: int|
            0 <= i < r.len() ==> drain_spec(snap, cursor, cap, r).0[(cursor + i) % (
            cap as int)] == r[i],
        forall|j: int|
            0 <= j < cap && (forall|i: int|
                0 <= i < r.len() ==> #[trigger] ((cursor + i) % (cap as int)) != j) ==> drain_spec(
                snap,
                cursor,
                cap,
                r,
            ).0[j] == snap[j],
    decreases r.len(),
{
    if r.len() > 0 {
        let snap1 = snap.update(cursor as int, r[0]);
        let c1 = ((cursor + 1) % cap) as nat;
        let rest = r.subrange(1, r.len() as int);
        assert(c1 < cap) by {
            vstd::arithmetic::div_mod::lemma_mod_bound((cursor + 1) as int, cap as int);
        }
        assert(c1 == if cursor + 1 < cap {
            (cursor + 1) as nat
        } else {
            (cursor + 1 - cap) as nat
        }) by {
            lemma_wrap_small(cursor, 1, cap);
        }
        lemma_drain_partial(snap1, c1, cap, rest);
        lemma_drain_wf(snap1, c1, cap, rest);
        // The slot written first is walked again only after a full lap,
        // which a drain of at most `cap` frames never completes.
        assert forall|i: int| 0 <= i < rest.len() implies #[trigger] ((c1 + i) % (cap as int)) == (
        cursor + i + 1) % (cap as int) && (c1 + i) % (cap as int) != cursor by {
            lemma_wrap_small(cursor, (i + 1) as nat, cap);
            lemma_wrap_small(c1, i as nat, cap);
        }
        assert((cursor as int) % (cap as int) == cursor) by {
            vstd::arithmetic::div_mod::lemma_small_mod(cursor, cap);
        }
        assert forall|i: int| 0 <= i < r.len() implies drain_spec(snap, cursor, cap, r).0[(cursor
            + i) % (cap as int)] == r[i] by {
            if i == 0 {
                assert(drain_spec(snap, cursor, cap, r).0 == drain_spec(snap1, c1, cap, rest).0);
                assert(drain_spec(snap1, c1, cap, rest).0[cursor as int] == snap1[cursor as int]);
            } else {
                assert(rest[i - 1] == r[i]);
                assert(drain_spec(snap1, c1, cap, rest).0[(c1 + (i - 1)) % (cap as int)] == rest[i
                    - 1]);
                lemma_wrap_small(cursor, i as nat, cap);
                lemma_wrap_small(c1, (i - 1) as nat, cap);
            }
        }
        assert forall|j: int|
            0 <= j < cap && (forall|i: int|
                0 <= i < r.len() ==> #[trigger] ((cursor + i) % (cap as int)) != j) implies drain_spec(
            snap,
            cursor,
            cap,
            r,
        ).0[j] == snap[j] by {
            assert(((cursor as int) + 0) % (cap as int) != j);
            assert(j != cursor);
            assert forall|i: int| 0 <= i < rest.len() implies #[trigger] ((c1 + i) % (
            cap as int)) != j by {
                assert((cursor + (i + 1)) % (cap as int) != j);
            }
            assert(drain_spec(snap1, c1, cap, rest).0[j] == snap1[j]);
        }
    }
}

/// Pushing a sequence that fits entirely into the ring's free space
/// appends it whole, in order, and counts every frame.
pub proof fn lemma_push_seq_all_fit(m: BufModel, vs: Seq<u64>)
    requires
        m.ring.len() + vs.len() <= m.ring_cap,
    ensures
        buf_push_seq_spec(m, vs) == (BufModel {
            ring: m.ring + vs,
            written: m.written + vs.len(),
            ..m
        }),
    decreases vs.len(),
{
    if vs.len() == 0 {
        assert(m.ring + vs =~= m.ring);
        assert(buf_push_seq_spec(m, vs) =~= (BufModel {
            ring: m.ring + vs,
            written: m.written + vs.len(),
            ..m
        }));
    } else {
        let m1 = buf_push_spec(m, vs[0]);
        let rest = vs.subrange(1, vs.len() as int);
        assert(m1.ring == m.ring.push(vs[0]));
        lemma_push_seq_all_fit(m1, rest);
        assert(m.ring.push(vs[0]) + rest =~= m.ring + vs);
        assert(buf_push_seq_spec(m, vs) =~= (BufModel {
            ring: m.ring + vs,
            written: m.written + vs.len(),
            ..m
        }));
    }
}

/// Pushing one more frame after a sequence is the sequence's effect
/// followed by a single push.
pub proof fn lemma_push_seq_snoc(m: BufModel, vs: Seq<u64>, x: u64)
    ensures
        buf_push_seq_spec(m, vs.push(x)) == buf_push_spec(buf_push_seq_spec(m, vs), x),
    decreases vs.len(),
{
    if vs.len() == 0 {
        assert(vs.push(x)[0] == x);
        assert(vs.push(x).subrange(1, 1) =~= Seq::<u64>::empty());
        assert(buf_push_seq_spec(m, vs.push(x)) == buf_push_seq_spec(
            buf_push_spec(m, x),
            Seq::<u64>::empty(),
        ));
        assert(buf_push_seq_spec(buf_push_spec(m, x), Seq::<u64>::empty()) == buf_push_spec(
            m,
            x,
        ));
        assert(buf_push_seq_spec(m, vs) == m);
    } else {
        assert(vs.push(x)[0] == vs[0]);
        assert(vs.push(x).subrange(1, vs.len() as int + 1) =~= vs.subrange(
            1,
            vs.len() as int,
        ).push(x));
        assert(buf_push_seq_spec(m, vs.push(x)) == buf_push_seq_spec(
            buf_push_spec(m, vs[0]),
            vs.subrange(1, vs.len() as int).push(x),
        ));
        assert(buf_push_seq_spec(m, vs) == buf_push_seq_spec(
            buf_push_spec(m, vs[0]),
            vs.subrange(1, vs.len() as int),
        ));
        lemma_push_seq_snoc(buf_push_spec(m, vs[0]), vs.subrange(1, vs.len() as int), x);
    }
}

/// Draining a concatenation equals draining the first part and then the
/// second from where the first left off.
pub proof fn lemma_drain_append(snap: Seq<u64>, cursor: nat, cap: nat, a: Seq<u64>, b: Seq<u64>)
    requires
        cap >= 1,
        cursor < cap,
        snap.len() == cap,
    ensures
        drain_spec(snap, cursor, cap, a + b).0 == drain_spec(
            drain_spec(snap, cursor, cap, a).0,
            drain_spec(snap, cursor, cap, a).1,
            cap,
            b,
        ).0,
        drain_spec(snap, cursor, cap, a + b).1 == drain_spec(
            drain_spec(snap, cursor, cap, a).0,
            drain_spec(snap, cursor, cap, a).1,
            cap,
            b,
        ).1,
    decreases a.len(),
{
    if a.len() == 0 {
        assert(a + b =~= b);
    } else {
        let snap1 = snap.update(cursor as int, a[0]);
        let c1 = ((cursor + 1) % cap) as nat;
        assert(c1 < cap) by {
            vstd::arithmetic::div_mod::lemma_mod_bound((cursor + 1) as int, cap as int);
        }
        assert((a + b)[0] == a[0]);
        assert((a + b).subrange(1, (a + b).len() as int) =~= a.subrange(1, a.len() as int) + b);
        lemma_drain_append(snap1, c1, cap, a.subrange(1, a.len() as int), b);
    }
}

/// Frames already delivered are never changed retroactively: however many
/// frames a producer pushes afterwards, the snapshot the display reads and
/// its cursor are untouched, and every frame already queued in the ring
/// keeps its place and value — pushes only append or drop.
pub proof fn lemma_push_seq_never_retroactive(m: BufModel, vs: Seq<u64>)
    ensures
        buf_push_seq_spec(m, vs).snap == m.snap,
        buf_push_seq_spec(m, vs).cursor == m.cursor,
        buf_push_seq_spec(m, vs).ring.len() >= m.ring.len(),
        forall|i: int|
            0 <= i < m.ring.len() ==> buf_push_seq_spec(m, vs).ring[i] == m.ring[i],
    decreases vs.len(),
{
    if vs.len() > 0 {
        let m1 = buf_push_spec(m, vs[0]);
        assert(forall|i: int| 0 <= i < m.ring.len() ==> m1.ring[i] == m.ring[i]);
        lemma_push_seq_never_retroactive(m1, vs.subrange(1, vs.len() as int));
    }
}

/// Pushing into a full ring never fails observably: the frame is dropped
/// silently, the queued frames are untouched, and the offered count still
/// grows.
pub proof fn lemma_full_push_drops_but_counts(m: BufModel, v: u64)
    requires
        m.ring.len() == m.ring_cap,
    ensures
        buf_push_spec(m, v).ring == m.ring,
        buf_push_spec(m, v).written == m.written + 1,
        buf_push_spec(m, v).snap == m.snap,
        buf_push_spec(m, v).cursor == m.cursor,
{
}

/// After a fresh buffer of capacity `cap` takes between `cap` and `2 * cap`
/// pushed frames and refreshes, the read returns exactly the newest `cap`
/// frames of the push sequence, in push order: the consumer never sees
/// frames out of relative order, only truncation of the oldest.
///
/// Beyond `2 * cap` pushes the ring itself is full and the newest frames
/// are the ones dropped, so this statement is confined to what the ring
/// can hold.
pub proof fn lemma_refresh_read_suffix(cap: nat, vs: Seq<u64>)
    requires
        1 <= cap,
        cap <= vs.len(),
        vs.len() <= cap * 2,
    ensures
        buf_read_spec(buf_refresh_spec(buf_push_seq_spec(buf_new_spec(cap), vs))) == vs.subrange(
            vs.len() - cap,
            vs.len() as int,
        ),
{
    let m0 = buf_new_spec(cap);
    let n = vs.len() as int;
    lemma_push_seq_all_fit(m0, vs);
    let m1 = buf_push_seq_spec(m0, vs);
    assert(m1.ring =~= vs);
    let a = vs.subrange(0, n - cap);
    let b = vs.subrange(n - cap, n);
    assert(vs =~= a + b);
    lemma_drain_append(m0.snap, 0, cap, a, b);
    lemma_drain_wf(m0.snap, 0, cap, a);
    let s1 = drain_spec(m0.snap, 0, cap, a).0;
    let c1 = drain_spec(m0.snap, 0, cap, a).1;
    lemma_drain_partial(s1, c1, cap, b);
    lemma_drain_cursor(s1, c1, cap, b);
    assert((c1 + cap) % cap == c1) by {
        vstd::arithmetic::div_mod::lemma_mod_add_multiples_vanish(c1 as int, cap as int);
        vstd::arithmetic::div_mod::lemma_small_mod(c1, cap);
    }
    let m2 = buf_refresh_spec(m1);
    assert(m2.snap == drain_spec(s1, c1, cap, b).0);
    assert(m2.cursor == c1);
    assert forall|i: int| 0 <= i < cap implies buf_read_spec(m2)[i] == b[i] by {
        assert(drain_spec(s1, c1, cap, b).0[(c1 + i) % (cap as int)] == b[i]);
    }
    assert(buf_read_spec(m2) =~= b);
}

/// After a fresh buffer of capacity `cap` takes exactly `cap` pushed
/// frames and refreshes, the read returns all of them in push order.
pub proof fn lemma_fill_reads_all(cap: nat, vs: Seq<u64>)
    requires
        1 <= cap,
        vs.len() == cap,
    ensures
        buf_read_spec(buf_refresh_spec(buf_push_seq_spec(buf_new_spec(cap), vs))) == vs,
{
    lemma_refresh_read_suffix(cap, vs);
    assert(vs.subrange(0, cap as int) =~= vs);
}

/// After a fresh buffer of capacity `cap` takes fewer than `cap` pushed
/// frames and refreshes, the read ends with those frames in push order,
/// preceded by the silent frames the snapshot started with.
pub proof fn lemma_partial_fill_read(cap: nat, vs: Seq<u64>)
    requires
        1 <= cap,
        vs.len() < cap,
    ensures
        buf_read_spec(buf_refresh_spec(buf_push_seq_spec(buf_new_spec(cap), vs))).len() == cap,
        forall|t: int|
            0 <= t < cap - vs.len() ==> buf_read_spec(
                buf_refresh_spec(buf_push_seq_spec(buf_new_spec(cap), vs)),
            )[t] == 0u64,
        forall|t: int|
            cap - vs.len() <= t < cap ==> buf_read_spec(
                buf_refresh_spec(buf_push_seq_spec(buf_new_spec(cap), vs)),
            )[t] == vs[t - (cap - vs.len())],
{
    let m0 = buf_new_spec(cap);
    let n = vs.len() as int;
    lemma_push_seq_all_fit(m0, vs);
    let m1 = buf_push_seq_spec(m0, vs);
    assert(m1.ring =~= vs);
    lemma_drain_partial(m0.snap, 0, cap, vs);
    lemma_drain_cursor(m0.snap, 0, cap, vs);
    lemma_drain_wf(m0.snap, 0, cap, vs);
    let m2 = buf_refresh_spec(m1);
    assert(m2.cursor == vs.len() % cap);
    vstd::arithmetic::div_mod::lemma_small_mod(vs.len(), cap);
    assert(m2.cursor == n);
    assert forall|i: int| 0 <= i < n implies m2.snap[i] == vs[i] by {
        vstd::arithmetic::div_mod::lemma_small_mod(i as nat, cap);
        assert(drain_spec(m0.snap, 0, cap, vs).0[(0 + i) % (cap as int)] == vs[i]);
    }
    assert forall|j: int| n <= j < cap implies m2.snap[j] == 0u64 by {
        assert forall|i: int| 0 <= i < vs.len() implies #[trigger] ((0 + i) % (cap as int)) != j
            by {
            vstd::arithmetic::div_mod::lemma_small_mod(i as nat, cap);
        }
        assert(drain_spec(m0.snap, 0, cap, vs).0[j] == m0.snap[j]);
    }
    assert forall|t: int| 0 <= t < cap implies buf_read_spec(m2)[t] == m2.snap[(n + t) % (
    cap as int)] by {}
    assert forall|t: int| 0 <= t < cap - n implies buf_read_spec(m2)[t] == 0u64 by {
        lemma_wrap_small(n as nat, t as nat, cap);
    }
    assert forall|t: int| cap - n <= t < cap implies buf_read_spec(m2)[t] == vs[t - (cap - n)]
        by {
        lemma_wrap_small(n as nat, t as nat, cap);
    }
}

/// An element-for-element copy of a snapshot's slots.
fn copy_slots(v: &Vec<u64>) -> (r: Vec<u64>)
    ensures
        r@ == v@,
{
    let mut r: Vec<u64> = Vec::new();
    let n = v.len();
    let mut i: usize = 0;
    while i < n
        invariant
            n == v@.len(),
            i <= n,
            r@.len() == i,
            forall|j: int| 0 <= j < i ==> r@[j] == v@[j],
        decreases n - i,
    {
        r.push(v[i]);
        i = i + 1;
    }
    proof {
        assert(r@ =~= v@);
    }
    r
}

/// Read the snapshot circularly from the cursor: slot `cursor` is oldest.
fn read_rotated(snapshot: &Vec<u64>, write_pos: usize, capacity: usize) -> (r: Vec<XYSample>)
    requires
        capacity >= 1,
        capacity * 2 <= usize::MAX,
        snapshot@.len() == capacity,
        write_pos < capacity,
    ensures
        r@.len() == capacity,
        forall|i: int|
            0 <= i < r@.len() ==> r@[i] == unpack_spec(
                snapshot@[(write_pos + i) % (capacity as int)],
            ),
{
    let mut r: Vec<XYSample> = Vec::new();
    let mut i: usize = 0;
    while i < capacity
        invariant
            capacity >= 1,
            capacity * 2 <= usize::MAX,
            snapshot@.len() == capacity,
            write_pos < capacity,
            i <= capacity,
            r@.len() == i,
            forall|j: int|
                0 <= j < i ==> r@[j] == unpack_spec(
                    snapshot@[(write_pos + j) % (capacity as int)],
                ),
        decreases capacity - i,
    {
        let idx = (write_pos + i) % capacity;
        r.push(unpack(snapshot[idx]));
        i = i + 1;
    }
    r
}

} // verus!
