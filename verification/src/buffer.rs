//! The transfer buffer: a fixed-capacity sample queue that decouples the
//! decode/resample worker from the hardware callback.
//!
//! The producer side (`try_push`) transfers backpressure to the decode
//! pipeline: a push that does not fit is refused whole — never truncated —
//! and the worker backs off and retries. The consumer side (`pop`,
//! `fill_block`) never blocks: on underrun it degrades to digital silence,
//! never to a stall, an error or garbage memory. Capacity is fixed at
//! construction; resizing during playback would need a lock, which the
//! real-time contract forbids.

use vstd::prelude::*;

use crate::sample::{equilibrium, spec_equilibrium, DeviceConfig, SampleFormat};

verus! {

/// Samples per channel in one nominal codec frame; the base unit of the
/// sizing formula.
pub const BASE_FRAME_SIZE: usize = 4608;

/// Least common multiple of the 1-, 2-, 3- and 4-channel layouts, so one
/// capacity divides evenly into whole interleaved time steps for any
/// common layout.
pub const CHANNEL_LCM: usize = 12;

/// How long the worker sleeps before rechecking free space when a push
/// does not fit. Bounded polling is the backpressure policy: the sleep
/// happens on the worker, never on the real-time path.
pub const PUSH_BACKOFF_MS: u64 = 10;

/// Capacity, in raw samples, given by the sizing formula: the base frame
/// size scaled by the channel-layout least common multiple. Independent of
/// the negotiated channel count, which keeps the maximum packet-to-callback
/// latency bounded regardless of layout.
pub open spec fn spec_transfer_capacity() -> nat {
    (BASE_FRAME_SIZE * CHANNEL_LCM) as nat
}

pub fn transfer_capacity() -> (n: usize)
    ensures
        n == spec_transfer_capacity(),
{
    BASE_FRAME_SIZE * CHANNEL_LCM
}

/// Sizing law: the computed capacity is evenly divisible by every 1-, 2-,
/// 3- and 4-channel layout, so the buffer always holds a whole number of
/// interleaved time steps for the same base frame size.
pub proof fn lemma_capacity_divisible(channels: nat)
    requires
        1 <= channels <= 4,
    ensures
        spec_transfer_capacity() % channels == 0,
{
    if channels == 1 {
        assert(spec_transfer_capacity() % 1 == 0);
    } else if channels == 2 {
        assert(spec_transfer_capacity() % 2 == 0);
    } else if channels == 3 {
        assert(spec_transfer_capacity() % 3 == 0);
    } else {
        assert(spec_transfer_capacity() % 4 == 0);
    }
}

/// Wraps a cursor position `j < 2 * cap` back into `[0, cap)`.
spec fn spec_wrap(j: nat, cap: nat) -> nat
    recommends
        j < 2 * cap,
{
    if j >= cap {
        (j - cap) as nat
    } else {
        j
    }
}

fn wrap_index(j: usize, cap: usize) -> (r: usize)
    requires
        1 <= cap,
        j < 2 * cap,
    ensures
        r == spec_wrap(j as nat, cap as nat),
        r < cap,
{
    if j >= cap {
        j - cap
    } else {
        j
    }
}

/// The queued samples of a ring with the given storage and cursors,
/// oldest first.
spec fn ring_contents(storage: Seq<u64>, head: nat, count: nat) -> Seq<u64>
    recommends
        head < storage.len(),
        count <= storage.len(),
{
    Seq::new(count, |i: int| storage[spec_wrap((head + i) as nat, storage.len()) as int])
}

proof fn lemma_ring_push(storage: Seq<u64>, head: nat, count: nat, x: u64)
    requires
        head < storage.len(),
        count < storage.len(),
    ensures
        ring_contents(
            storage.update(spec_wrap((head + count) as nat, storage.len()) as int, x),
            head,
            (count + 1) as nat,
        ) =~= ring_contents(storage, head, count) + seq![x],
{
    let len = storage.len();
    let idx = spec_wrap((head + count) as nat, len);
    assert forall|i: int| 0 <= i < count implies #[trigger] spec_wrap((head + i) as nat, len) != idx by {
        assert(head + i < 2 * len);
        assert(head + count < 2 * len);
    }
}

proof fn lemma_ring_pop(storage: Seq<u64>, head: nat, count: nat)
    requires
        head < storage.len(),
        1 <= count <= storage.len(),
    ensures
        ring_contents(storage, spec_wrap((head + 1) as nat, storage.len()), (count - 1) as nat)
            =~= ring_contents(storage, head, count).skip(1),
{
    let len = storage.len();
    let h2 = spec_wrap((head + 1) as nat, len);
    assert forall|i: int| 0 <= i < count - 1 implies #[trigger] spec_wrap((h2 + i) as nat, len)
        == spec_wrap((head + 1 + i) as nat, len) by {
        assert(h2 + i < 2 * len);
    }
}

/// The fixed-capacity single-producer/single-consumer sample queue. The
/// worker uses only the push side and the hardware callback only the pop
/// side; the two sides share nothing but the ring's cursors, so neither
/// ever takes a lock.
pub struct TransferBuffer {
    storage: Vec<u64>,
    head: usize,
    count: usize,
    format: SampleFormat,
    pushed: Ghost<nat>,
    popped: Ghost<nat>,
}

impl TransferBuffer {
    /// The fixed capacity, in raw samples.
    pub closed spec fn spec_capacity(&self) -> nat {
        self.storage@.len()
    }

    /// The queued samples, oldest first.
    pub closed spec fn contents(&self) -> Seq<u64> {
        ring_contents(self.storage@, self.head as nat, self.count as nat)
    }

    /// The sample format whose equilibrium value fills underruns.
    pub closed spec fn spec_format(&self) -> SampleFormat {
        self.format
    }

    /// Total samples ever accepted by the push side.
    pub closed spec fn total_pushed(&self) -> nat {
        self.pushed@
    }

    /// Total samples ever returned by the pop side (underrun fills not
    /// counted: they were never queued).
    pub closed spec fn total_popped(&self) -> nat {
        self.popped@
    }

    /// Structural invariant: cursors in range, capacity fixed by the sizing
    /// formula, and the push/pop totals accounting for the queued samples.
    pub closed spec fn wf(&self) -> bool {
        &&& self.storage@.len() == spec_transfer_capacity()
        &&& self.head < self.storage@.len()
        &&& self.count <= self.storage@.len()
        &&& self.pushed@ == self.popped@ + self.count
    }

    /// Conservation law: the buffer never returns more samples than were
    /// pushed, and the difference is exactly what is still queued.
    pub proof fn lemma_conservation(&self)
        requires
            self.wf(),
        ensures
            self.total_popped() <= self.total_pushed(),
            self.total_pushed() == self.total_popped() + self.contents().len(),
    {
    }

    /// Builds the buffer for a negotiated configuration, sized by the
    /// formula and filled with the format's equilibrium value.
    pub fn with_config(config: &DeviceConfig) -> (b: TransferBuffer)
        ensures
            b.wf(),
            b.contents() =~= Seq::<u64>::empty(),
            b.spec_capacity() == spec_transfer_capacity(),
            b.spec_format() == config.sample_format,
            b.total_pushed() == 0,
            b.total_popped() == 0,
    {
        let cap = transfer_capacity();
        let silence = equilibrium(config.sample_format);
        let mut storage: Vec<u64> = Vec::new();
        while storage.len() < cap
            invariant
                storage@.len() <= cap,
            decreases cap - storage@.len(),
        {
            storage.push(silence);
        }
        TransferBuffer {
            storage,
            head: 0,
            count: 0,
            format: config.sample_format,
            pushed: Ghost(0),
            popped: Ghost(0),
        }
    }

    /// The fixed capacity, in raw samples.
    pub fn capacity(&self) -> (n: usize)
        requires
            self.wf(),
        ensures
            n == self.spec_capacity(),
    {
        self.storage.len()
    }

    /// Number of samples currently queued.
    pub fn len(&self) -> (n: usize)
        requires
            self.wf(),
        ensures
            n == self.contents().len(),
    {
        self.count
    }

    pub fn is_empty(&self) -> (r: bool)
        requires
            self.wf(),
        ensures
            r == (self.contents().len() == 0),
    {
        self.count == 0
    }

    /// Free space left for the producer.
    pub fn free_len(&self) -> (n: usize)
        requires
            self.wf(),
        ensures
            n == self.spec_capacity() - self.contents().len(),
    {
        self.storage.len() - self.count
    }

    /// Producer side. Queues all of `samples` if they fit in the free
    /// space, else refuses and changes nothing: a full buffer blocks the
    /// worker (which backs off and retries), it never drops or truncates.
    pub fn try_push(&mut self, samples: &Vec<u64>) -> (accepted: bool)
        requires
            old(self).wf(),
        ensures
            final(self).wf(),
            final(self).spec_capacity() == old(self).spec_capacity(),
            final(self).spec_format() == old(self).spec_format(),
            accepted <==> samples@.len() <= old(self).spec_capacity() - old(
                self,
            ).contents().len(),
            accepted ==> final(self).contents() =~= old(self).contents() + samples@,
            accepted ==> final(self).total_pushed() == old(self).total_pushed() + samples@.len(),
            accepted ==> final(self).total_popped() == old(self).total_popped(),
            !accepted ==> *final(self) == *old(self),
    {
        let cap = self.storage.len();
        if samples.len() > cap - self.count {
            return false;
        }
        let ghost pre = *self;
        let mut i: usize = 0;
        while i < samples.len()
            invariant
                self.wf(),
                cap == self.storage@.len(),
                i <= samples@.len(),
                samples@.len() <= pre.spec_capacity() - pre.contents().len(),
                self.storage@.len() == pre.spec_capacity(),
                self.format == pre.spec_format(),
                self.head == pre.head,
                self.count == pre.count + i,
                self.contents() =~= pre.contents() + samples@.take(i as int),
                self.pushed@ == pre.pushed@ + i,
                self.popped@ == pre.popped@,
            decreases samples@.len() - i,
        {
            let idx = wrap_index(self.head + self.count, cap);
            proof {
                lemma_ring_push(self.storage@, self.head as nat, self.count as nat, samples@[
                    i as int]);
            }
            let ghost before = self.contents();
            self.storage.set(idx, samples[i]);
            self.count = self.count + 1;
            self.pushed = Ghost(self.pushed@ + 1);
            i = i + 1;
            proof {
                assert(self.contents() =~= before + seq![samples@[i - 1]]);
                assert(samples@.take(i as int) =~= samples@.take(i - 1) + seq![samples@[i - 1]]);
            }
        }
        proof {
            assert(samples@.take(samples@.len() as int) =~= samples@);
        }
        true
    }

    /// Consumer side. Returns the oldest queued sample; on underrun it
    /// returns the format's equilibrium value (digital silence) and leaves
    /// the buffer untouched — it never blocks and never fails.
    pub fn pop(&mut self) -> (s: u64)
        requires
            old(self).wf(),
        ensures
            final(self).wf(),
            final(self).spec_capacity() == old(self).spec_capacity(),
            final(self).spec_format() == old(self).spec_format(),
            old(self).contents().len() > 0 ==> {
                &&& s == old(self).contents()[0]
                &&& final(self).contents() =~= old(self).contents().skip(1)
                &&& final(self).total_popped() == old(self).total_popped() + 1
                &&& final(self).total_pushed() == old(self).total_pushed()
            },
            old(self).contents().len() == 0 ==> s == spec_equilibrium(old(self).spec_format())
                && *final(self) == *old(self),
    {
        if self.count == 0 {
            return equilibrium(self.format);
        }
        proof {
            lemma_ring_pop(self.storage@, self.head as nat, self.count as nat);
        }
        let s = self.storage[self.head];
        self.head = wrap_index(self.head + 1, self.storage.len());
        self.count = self.count - 1;
        self.popped = Ghost(self.popped@ + 1);
        s
    }

    /// One hardware-callback run: fills every slot of the device's output
    /// block, popping while samples are queued and writing digital silence
    /// from the first underrun on. Samples leave in exactly the order they
    /// were pushed.
    pub fn fill_block(&mut self, block: &mut Vec<u64>)
        requires
            old(self).wf(),
        ensures
            final(self).wf(),
            final(self).spec_capacity() == old(self).spec_capacity(),
            final(self).spec_format() == old(self).spec_format(),
            final(block)@.len() == old(block)@.len(),
            forall|i: int|
                0 <= i < final(block)@.len() ==> final(block)@[i] == (if i < old(
                    self,
                ).contents().len() {
                    old(self).contents()[i]
                } else {
                    spec_equilibrium(old(self).spec_format())
                }),
            final(self).contents() =~= (if final(block)@.len() < old(self).contents().len() {
                old(self).contents().skip(final(block)@.len() as int)
            } else {
                Seq::<u64>::empty()
            }),
    {
        let n = block.len();
        let mut i: usize = 0;
        while i < n
            invariant
                self.wf(),
                i <= n,
                n == block@.len(),
                block@.len() == old(block)@.len(),
                self.spec_capacity() == old(self).spec_capacity(),
                self.spec_format() == old(self).spec_format(),
                self.contents() =~= (if i < old(self).contents().len() {
                    old(self).contents().skip(i as int)
                } else {
                    Seq::<u64>::empty()
                }),
                forall|j: int|
                    0 <= j < i ==> block@[j] == (if j < old(self).contents().len() {
                        old(self).contents()[j]
                    } else {
                        spec_equilibrium(old(self).spec_format())
                    }),
            decreases n - i,
        {
            let ghost before = self.contents();
            let s = self.pop();
            block.set(i, s);
            i = i + 1;
            proof {
                if before.len() > 0 {
                    assert(self.contents() =~= before.skip(1));
                    if i < old(self).contents().len() {
                        assert(old(self).contents().skip(i - 1).skip(1) =~= old(
                            self,
                        ).contents().skip(i as int));
                    }
                }
            }
        }
    }
}

/// Round-trip law: pushing a sequence `xs` onto an empty transfer buffer
/// queues exactly `xs` (ensures of `try_push`: the contents become the old
/// contents concatenated with `xs`), and the pops that follow return it in
/// order: after `i` pops the queue holds `xs.skip(i)` (ensures of `pop`),
/// so the next pop returns `xs[i]`.
pub proof fn lemma_round_trip(xs: Seq<u64>, i: int)
    requires
        0 <= i < xs.len(),
    ensures
        Seq::<u64>::empty() + xs =~= xs,
        xs.skip(i).len() > 0,
        xs.skip(i)[0] == xs[i],
        xs.skip(i).skip(1) =~= xs.skip(i + 1),
{
}

/// Backpressure law: `try_push` accepts a sequence exactly when it fits the
/// free space (and otherwise leaves the buffer unchanged — see its
/// contract), so a refused push of `n` samples against `len` queued is
/// accepted as soon as the consumer has drained `k >= n - (cap - len)`
/// further samples.
pub proof fn lemma_push_admission(cap: nat, len: nat, k: nat, n: nat)
    requires
        k <= len <= cap,
        n > cap - len,
        k >= n - (cap - len),
    ensures
        n <= cap - (len - k),
{
}

} // verus!
