//! A fixed-capacity sample buffer that keeps the most recent samples.
use ringbuffer::AllocRingBuffer;
use vstd::prelude::*;

verus! {

/// The largest capacity a `SampleRing` may be created with.
pub const MAX_RING_CAPACITY: usize = 2147483648;

#[verifier::external_type_specification]
#[verifier::external_body]
#[verifier::reject_recursive_types(T)]
pub struct ExAllocRingBuffer<T>(AllocRingBuffer<T>);

/// The samples held by a ring buffer, oldest first.
pub uninterp spec fn ring_items(b: AllocRingBuffer<i32>) -> Seq<i32>;

/// The capacity a ring buffer was created with.
pub uninterp spec fn ring_capacity(b: AllocRingBuffer<i32>) -> nat;

/// Relies on `AllocRingBuffer::new`: an empty buffer of exactly `capacity`
/// slots (the allocation is rounded up to a power of two; it panics on zero).
#[verifier::external_body]
fn ring_new(capacity: usize) -> (r: AllocRingBuffer<i32>)
    requires
        0 < capacity <= MAX_RING_CAPACITY,
    ensures
        ring_items(r) == Seq::<i32>::empty(),
        ring_capacity(r) == capacity as nat,
{
    AllocRingBuffer::new(capacity)
}

/// Relies on `RingBuffer::push` of `AllocRingBuffer`: when the buffer is full
/// (length equals capacity) the oldest item is dropped, then the value is
/// appended.
#[verifier::external_body]
fn ring_push(b: &mut AllocRingBuffer<i32>, v: i32)
    ensures
        ring_capacity(*final(b)) == ring_capacity(*old(b)),
        ring_items(*final(b)) == (if ring_items(*old(b)).len() == ring_capacity(*old(b)) {
            ring_items(*old(b)).drop_first().push(v)
        } else {
            ring_items(*old(b)).push(v)
        }),
{
    ringbuffer::RingBuffer::push(b, v)
}

/// Relies on `RingBuffer::len`: the number of items held.
#[verifier::external_body]
fn ring_len(b: &AllocRingBuffer<i32>) -> (r: usize)
    ensures
        r as int == ring_items(*b).len(),
{
    ringbuffer::RingBuffer::len(b)
}

/// Relies on `RingBuffer::capacity`: the capacity given at creation.
#[verifier::external_body]
fn ring_cap(b: &AllocRingBuffer<i32>) -> (r: usize)
    ensures
        r as nat == ring_capacity(*b),
{
    ringbuffer::RingBuffer::capacity(b)
}

/// Relies on `RingBuffer::drain`: it dequeues every item, oldest first,
/// leaving the buffer empty with its capacity.
#[verifier::external_body]
fn ring_drain(b: &mut AllocRingBuffer<i32>) -> (r: Vec<i32>)
    ensures
        r@ == ring_items(*old(b)),
        ring_items(*final(b)) == Seq::<i32>::empty(),
        ring_capacity(*final(b)) == ring_capacity(*old(b)),
{
    ringbuffer::RingBuffer::drain(b).collect()
}

/// What a buffer of capacity `cap` holds after one push of `v` onto `s`.
pub open spec fn pushed(s: Seq<i32>, cap: nat, v: i32) -> Seq<i32> {
    if s.len() >= cap {
        s.subrange(s.len() - cap + 1, s.len() as int).push(v)
    } else {
        s.push(v)
    }
}

/// What a buffer of capacity `cap` holding `s` holds after pushing each of
/// `xs` in turn.
pub open spec fn pushes(s: Seq<i32>, cap: nat, xs: Seq<i32>) -> Seq<i32>
    decreases xs.len(),
{
    if xs.len() == 0 {
        s
    } else {
        pushed(pushes(s, cap, xs.drop_last()), cap, xs.last())
    }
}

/// The last `cap` items of `xs` (all of them if there are fewer).
pub open spec fn latest(xs: Seq<i32>, cap: nat) -> Seq<i32> {
    if xs.len() <= cap {
        xs
    } else {
        xs.subrange(xs.len() - cap, xs.len() as int)
    }
}

/// Sliding window of the most recent samples. Pushing never fails: when the
/// buffer is full the oldest sample makes room for the newest.
pub struct SampleRing {
    buf: AllocRingBuffer<i32>,
}

impl View for SampleRing {
    type V = Seq<i32>;

    /// The buffered samples, oldest first.
    closed spec fn view(&self) -> Seq<i32> {
        ring_items(self.buf)
    }
}

impl SampleRing {
    /// The number of samples the buffer can hold.
    pub closed spec fn spec_capacity(&self) -> nat {
        ring_capacity(self.buf)
    }

    /// Never more samples than the capacity, and room for at least one.
    pub open spec fn wf(&self) -> bool {
        &&& 0 < self.spec_capacity()
        &&& self@.len() <= self.spec_capacity()
    }

    /// An empty buffer holding up to `capacity` samples.
    pub fn new(capacity: usize) -> (r: SampleRing)
        requires
            0 < capacity <= MAX_RING_CAPACITY,
        ensures
            r.wf(),
            r@ == Seq::<i32>::empty(),
            r.spec_capacity() == capacity as nat,
    {
        SampleRing { buf: ring_new(capacity) }
    }

    /// Appends `v`, evicting the oldest sample when the buffer is full.
    pub fn push(&mut self, v: i32)
        requires
            old(self).wf(),
        ensures
            final(self).wf(),
            final(self).spec_capacity() == old(self).spec_capacity(),
            final(self)@ == pushed(old(self)@, old(self).spec_capacity(), v),
    {
        ring_push(&mut self.buf, v);
        proof {
            let s = ring_items(old(self).buf);
            if s.len() >= ring_capacity(old(self).buf) {
                assert(s.drop_first() =~= s.subrange(s.len() - ring_capacity(old(self).buf) + 1, s.len() as int));
            }
        }
    }

    /// Pushes every sample of `xs`, in order.
    pub fn push_all(&mut self, xs: &Vec<i32>)
        requires
            old(self).wf(),
        ensures
            final(self).wf(),
            final(self).spec_capacity() == old(self).spec_capacity(),
            final(self)@ == pushes(old(self)@, old(self).spec_capacity(), xs@),
    {
        let n = xs.len();
        let mut i: usize = 0;
        while i < n
            invariant
                n == xs@.len(),
                i <= n,
                self.wf(),
                self.spec_capacity() == old(self).spec_capacity(),
                self@ == pushes(old(self)@, old(self).spec_capacity(), xs@.take(i as int)),
            decreases n - i,
        {
            self.push(xs[i]);
            proof {
                assert(xs@.take(i + 1).drop_last() =~= xs@.take(i as int));
            }
            i += 1;
        }
        proof {
            assert(xs@.take(n as int) =~= xs@);
        }
    }

    /// Removes and returns every buffered sample, oldest first.
    pub fn drain_all(&mut self) -> (r: Vec<i32>)
        requires
            old(self).wf(),
        ensures
            final(self).wf(),
            final(self).spec_capacity() == old(self).spec_capacity(),
            r@ == old(self)@,
            final(self)@ == Seq::<i32>::empty(),
    {
        ring_drain(&mut self.buf)
    }

    /// The number of buffered samples.
    pub fn len(&self) -> (r: usize)
        ensures
            r as int == self@.len(),
    {
        ring_len(&self.buf)
    }

    /// The number of samples the buffer can hold.
    pub fn capacity(&self) -> (r: usize)
        ensures
            r as nat == self.spec_capacity(),
    {
        ring_cap(&self.buf)
    }
}

/// One push never takes the buffer past its capacity and keeps the most
/// recent samples: pushing onto the window of `xs` gives the window of `xs`
/// followed by `v`.
pub proof fn lemma_pushed_latest(xs: Seq<i32>, cap: nat, v: i32)
    requires
        0 < cap,
    ensures
        pushed(latest(xs, cap), cap, v) == latest(xs.push(v), cap),
{
    let w = latest(xs, cap);
    let ys = xs.push(v);
    if xs.len() < cap {
        assert(pushed(w, cap, v) =~= latest(ys, cap));
    } else {
        assert(w.len() == cap);
        assert(pushed(w, cap, v) =~= latest(ys, cap));
    }
}

/// Whatever samples are pushed into an empty buffer of capacity `cap`, it
/// never holds more than `cap` of them, and it holds exactly the most recent
/// ones in push order: after `cap + k` pushes, the last `cap`.
pub proof fn lemma_ring_keeps_latest(xs: Seq<i32>, cap: nat)
    requires
        0 < cap,
    ensures
        pushes(Seq::<i32>::empty(), cap, xs) == latest(xs, cap),
        pushes(Seq::<i32>::empty(), cap, xs).len() <= cap,
        xs.len() >= cap ==> pushes(Seq::<i32>::empty(), cap, xs) == xs.subrange(
            xs.len() - cap,
            xs.len() as int,
        ),
    decreases xs.len(),
{
    if xs.len() == 0 {
        assert(latest(xs, cap) =~= Seq::<i32>::empty());
    } else {
        lemma_ring_keeps_latest(xs.drop_last(), cap);
        lemma_pushed_latest(xs.drop_last(), cap, xs.last());
        assert(xs.drop_last().push(xs.last()) =~= xs);
    }
}

} // verus!
