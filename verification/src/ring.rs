//! Trusted boundary to the lock-free SPSC rings of the `ringbuf` crate and
//! to the shared statistics counter.
//!
//! The visualization pipeline moves packed frames (`u64`) and the audio
//! output path moves single channel words (`u32`). While both halves of a
//! ring live side by side in one [`FrameRing`] value, the pair behaves as a
//! plain FIFO queue, and the wrappers here state that behaviour exactly.
//! Once the halves are split apart they may sit on different threads, so a
//! split half promises nothing about the queue's contents — only its own
//! call history: which words it offered or took, and how often it polled.
//! The verified callers state what holds whatever comes back.

use vstd::prelude::*;
use ringbuf::traits::{Consumer, Observer, Producer, Split};

verus! {

/// Both halves of one heap-allocated SPSC ring of packed frames.
/// Owning this value means owning the whole queue: no other handle to the
/// same ring exists, so its contents change only through these wrappers.
#[verifier::external_body]
pub struct FrameRing {
    prod: ringbuf::HeapProd<u64>,
    cons: ringbuf::HeapCons<u64>,
}

/// The producer half of a frame ring after the halves were split apart.
#[verifier::external_body]
pub struct FrameRingProducer {
    inner: ringbuf::HeapProd<u64>,
}

/// The consumer half of a frame ring after the halves were split apart.
#[verifier::external_body]
pub struct FrameRingConsumer {
    inner: ringbuf::HeapCons<u64>,
}

/// The packed frames currently queued in the ring, oldest first.
pub uninterp spec fn frame_ring_items(r: FrameRing) -> Seq<u64>;

/// The fixed capacity the ring was created with.
pub uninterp spec fn frame_ring_cap(r: FrameRing) -> nat;

/// The words offered to the ring through this producer half since the
/// split, in call order. A history of this half's own calls alone, so it
/// is well defined whatever the consumer does concurrently.
pub uninterp spec fn frame_prod_offered(p: FrameRingProducer) -> Seq<u64>;

/// The words taken from the ring through this consumer half since the
/// split, in call order.
pub uninterp spec fn frame_cons_taken(c: FrameRingConsumer) -> Seq<u64>;

/// How many pop calls were made on this consumer half since the split.
/// A poll beyond the taken words is one that found the ring empty.
pub uninterp spec fn frame_cons_polls(c: FrameRingConsumer) -> nat;

/// Relies on ringbuf's `HeapRb::new` and `Split::split`: a fresh ring has the
/// requested capacity and holds nothing. `HeapRb::new` panics on capacity
/// zero, so that capacity is excluded here.
#[verifier::external_body]
pub(crate) fn frame_ring_new(capacity: usize) -> (r: FrameRing)
    requires
        capacity >= 1,
    ensures
        frame_ring_items(r) == Seq::<u64>::empty(),
        frame_ring_cap(r) == capacity as nat,
{
    let rb = ringbuf::HeapRb::<u64>::new(capacity);
    let (prod, cons) = rb.split();
    FrameRing { prod, cons }
}

/// Relies on ringbuf's `Producer::try_push`: when the ring is not full the
/// item is appended at the back and the call returns `Ok`; when it is full
/// the item is handed back and the queue is untouched. The call never blocks.
#[verifier::external_body]
pub(crate) fn frame_ring_try_push(r: &mut FrameRing, v: u64) -> (ok: bool)
    ensures
        frame_ring_cap(*final(r)) == frame_ring_cap(*old(r)),
        ok == (frame_ring_items(*old(r)).len() < frame_ring_cap(*old(r))),
        ok ==> frame_ring_items(*final(r)) == frame_ring_items(*old(r)).push(v),
        !ok ==> frame_ring_items(*final(r)) == frame_ring_items(*old(r)),
{
    r.prod.try_push(v).is_ok()
}

/// Relies on ringbuf's `Consumer::try_pop`: the eldest item is removed and
/// returned, or `None` when the ring is empty. The call never blocks.
#[verifier::external_body]
pub(crate) fn frame_ring_try_pop(r: &mut FrameRing) -> (v: Option<u64>)
    ensures
        frame_ring_cap(*final(r)) == frame_ring_cap(*old(r)),
        frame_ring_items(*old(r)).len() == 0 ==> v is None
            && frame_ring_items(*final(r)) == frame_ring_items(*old(r)),
        frame_ring_items(*old(r)).len() > 0 ==> v == Some(frame_ring_items(*old(r))[0])
            && frame_ring_items(*final(r)) == frame_ring_items(*old(r)).subrange(
                1,
                frame_ring_items(*old(r)).len() as int,
            ),
{
    r.cons.try_pop()
}

/// Relies only on moving the two halves apart; afterwards each half may
/// live on its own thread, so nothing is stated about the queue any more —
/// only that the fresh halves carry no call history yet.
#[verifier::external_body]
pub(crate) fn frame_ring_split(r: FrameRing) -> (h: (FrameRingProducer, FrameRingConsumer))
    ensures
        frame_prod_offered(h.0) == Seq::<u64>::empty(),
        frame_cons_taken(h.1) == Seq::<u64>::empty(),
        frame_cons_polls(h.1) == 0,
{
    (FrameRingProducer { inner: r.prod }, FrameRingConsumer { inner: r.cons })
}

/// Relies on ringbuf's `Producer::try_push` on a split half: the call never
/// blocks and never panics, and it offers exactly its argument. Whether the
/// word entered or the ring was full is not pinned down — the other half
/// may be popping concurrently.
#[verifier::external_body]
pub(crate) fn frame_prod_try_push(p: &mut FrameRingProducer, v: u64) -> (ok: bool)
    ensures
        frame_prod_offered(*final(p)) == frame_prod_offered(*old(p)).push(v),
{
    p.inner.try_push(v).is_ok()
}

/// Relies on ringbuf's `Consumer::try_pop` on a split half: the call never
/// blocks and never panics. What comes back depends on the concurrent
/// producer, but each returned word extends this half's taken history, and
/// every call counts as one poll.
#[verifier::external_body]
pub(crate) fn frame_cons_try_pop(c: &mut FrameRingConsumer) -> (v: Option<u64>)
    ensures
        frame_cons_polls(*final(c)) == frame_cons_polls(*old(c)) + 1,
        v matches Some(w) ==> frame_cons_taken(*final(c)) == frame_cons_taken(*old(c)).push(w),
        v is None ==> frame_cons_taken(*final(c)) == frame_cons_taken(*old(c)),
{
    c.inner.try_pop()
}

/// The producer half of the audio-output ring of interleaved channel words.
#[verifier::external_body]
pub struct OutputProducer {
    inner: ringbuf::HeapProd<u32>,
}

/// The consumer half of the audio-output ring, owned by the output callback.
#[verifier::external_body]
pub struct OutputConsumer {
    inner: ringbuf::HeapCons<u32>,
}

/// The channel words offered to the output ring through this producer half
/// since its creation, in call order.
pub uninterp spec fn out_prod_offered(p: OutputProducer) -> Seq<u32>;

/// The channel words taken from the output ring through this consumer half
/// since its creation, in call order.
pub uninterp spec fn out_cons_taken(c: OutputConsumer) -> Seq<u32>;

/// How many pop calls were made on this consumer half. A poll beyond the
/// taken words is one that found the ring empty: an underrun.
pub uninterp spec fn out_cons_polls(c: OutputConsumer) -> nat;

/// Relies on ringbuf's `HeapRb::new` and `Split::split`; `HeapRb::new`
/// panics on capacity zero, so that capacity is excluded here. The halves
/// part ways at once, so nothing is stated about the queue — only that the
/// fresh halves carry no call history yet.
#[verifier::external_body]
pub(crate) fn out_ring_new(capacity: usize) -> (h: (OutputProducer, OutputConsumer))
    requires
        capacity >= 1,
    ensures
        out_prod_offered(h.0) == Seq::<u32>::empty(),
        out_cons_taken(h.1) == Seq::<u32>::empty(),
        out_cons_polls(h.1) == 0,
{
    let rb = ringbuf::HeapRb::<u32>::new(capacity);
    let (prod, cons) = rb.split();
    (OutputProducer { inner: prod }, OutputConsumer { inner: cons })
}

/// Relies on ringbuf's `Producer::try_push` on a split half: never blocks,
/// never panics, and offers exactly its argument; whether it entered is not
/// pinned down — the consumer may be draining concurrently.
#[verifier::external_body]
pub(crate) fn out_prod_try_push(p: &mut OutputProducer, v: u32) -> (ok: bool)
    ensures
        out_prod_offered(*final(p)) == out_prod_offered(*old(p)).push(v),
{
    p.inner.try_push(v).is_ok()
}

/// Relies on ringbuf's `Observer::is_full`: a momentary reading; the
/// consumer may free space at any time.
#[verifier::external_body]
pub(crate) fn out_prod_is_full(p: &OutputProducer) -> (full: bool)
{
    p.inner.is_full()
}

/// Relies on ringbuf's `Consumer::try_pop` on a split half: never blocks,
/// never panics. What comes back depends on the concurrent producer, but
/// each returned word extends this half's taken history, and every call
/// counts as one poll.
#[verifier::external_body]
pub(crate) fn out_cons_try_pop(c: &mut OutputConsumer) -> (v: Option<u32>)
    ensures
        out_cons_polls(*final(c)) == out_cons_polls(*old(c)) + 1,
        v matches Some(w) ==> out_cons_taken(*final(c)) == out_cons_taken(*old(c)).push(w),
        v is None ==> out_cons_taken(*final(c)) == out_cons_taken(*old(c)),
{
    c.inner.try_pop()
}

/// A 32-bit control word shared across threads through an atomic: the
/// storage behind a scalar control value, published by the UI and observed
/// by a real-time reader. Clones address the same word, so no clone can
/// pin its value down.
#[verifier::external_body]
pub struct SharedWord {
    inner: std::sync::Arc<std::sync::atomic::AtomicU32>,
}

/// Relies on `Arc::new` and `AtomicU32::new`.
#[verifier::external_body]
pub(crate) fn word_new(initial: u32) -> (w: SharedWord)
{
    SharedWord { inner: std::sync::Arc::new(std::sync::atomic::AtomicU32::new(initial)) }
}

/// Relies on `Arc::clone`: the clone addresses the same word.
#[verifier::external_body]
pub(crate) fn word_clone(w: &SharedWord) -> (c: SharedWord)
{
    SharedWord { inner: std::sync::Arc::clone(&w.inner) }
}

/// Relies on `AtomicU32::store` with relaxed ordering: publishes the word;
/// a reader sees it on its next access.
#[verifier::external_body]
pub(crate) fn word_store(w: &SharedWord, v: u32)
{
    w.inner.store(v, std::sync::atomic::Ordering::Relaxed);
}

/// Relies on `AtomicU32::load` with relaxed ordering: a momentary reading
/// of the latest published word.
#[verifier::external_body]
pub(crate) fn word_load(w: &SharedWord) -> (v: u32)
{
    w.inner.load(std::sync::atomic::Ordering::Relaxed)
}

/// A sample counter shared across threads through an atomic. Clones address
/// the same counter, so no clone can pin its value down.
#[verifier::external_body]
pub struct SharedCounter {
    inner: std::sync::Arc<std::sync::atomic::AtomicU64>,
}

/// Relies on `Arc::new` and `AtomicU64::new`.
#[verifier::external_body]
pub(crate) fn counter_new() -> (c: SharedCounter)
{
    SharedCounter { inner: std::sync::Arc::new(std::sync::atomic::AtomicU64::new(0)) }
}

/// Relies on `Arc::clone`: the clone addresses the same counter.
#[verifier::external_body]
pub(crate) fn counter_clone(c: &SharedCounter) -> (d: SharedCounter)
{
    SharedCounter { inner: std::sync::Arc::clone(&c.inner) }
}

/// Relies on `AtomicU64::fetch_add` with relaxed ordering: a wrapping,
/// never-blocking increment of the shared statistic.
#[verifier::external_body]
pub(crate) fn counter_add(c: &SharedCounter, n: u64)
{
    c.inner.fetch_add(n, std::sync::atomic::Ordering::Relaxed);
}

/// Relies on `AtomicU64::load` with relaxed ordering: a momentary reading
/// of the shared statistic.
#[verifier::external_body]
pub(crate) fn counter_get(c: &SharedCounter) -> (n: u64)
{
    c.inner.load(std::sync::atomic::Ordering::Relaxed)
}

} // verus!
