//! A bounded, lossy, best-effort sample pipe.
//!
//! The render loop republishes its monitor samples (as `f32` bit patterns)
//! for consumption outside the real-time path.  Publishing never blocks and
//! never back-pressures the renderer: a full pipe silently drops the sample.
//! Draining returns and clears everything currently queued.
//!
//! The pipe is a bounded crossbeam channel whose two ends are held together
//! in one value, so every contract below speaks about one queue; its
//! contents and its bound are named by [`bus_queue`] and [`bus_capacity`].
//! Holding both ends also rules out the channel's disconnection failures.

use vstd::prelude::*;

verus! {

/// Default capacity of the monitor pipe, in samples.
pub const BUFFER_SIZE: usize = 2048;

/// A bounded queue of sample bit patterns; see the module description.
#[verifier::external_body]
#[derive(Debug)]
pub struct Bus {
    tx: crossbeam_channel::Sender<u32>,
    rx: crossbeam_channel::Receiver<u32>,
}

/// The samples currently queued, oldest first.
pub uninterp spec fn bus_queue(b: &Bus) -> Seq<u32>;

/// The fixed capacity the queue was created with.
pub uninterp spec fn bus_capacity(b: &Bus) -> nat;

impl Bus {
    /// Relies on `crossbeam_channel::bounded`: creates an empty channel
    /// that holds at most `size` messages.
    #[verifier::external_body]
    pub fn new(size: usize) -> (r: Bus)
        ensures
            bus_queue(&r) == Seq::<u32>::empty(),
            bus_capacity(&r) == size,
    {
        let (tx, rx) = crossbeam_channel::bounded(size);
        Self { tx, rx }
    }

    /// Relies on `crossbeam_channel::Sender::try_send` on the bounded
    /// flavor: appends the message when the queue is short of its
    /// capacity and fails without effect when it is full; it never
    /// blocks.  Disconnection cannot occur while the receiving end is
    /// alive in the same value.
    #[verifier::external_body]
    pub fn send(&mut self, value: u32)
        ensures
            bus_capacity(final(self)) == bus_capacity(old(self)),
            bus_queue(old(self)).len() < bus_capacity(old(self)) ==> bus_queue(final(self))
                == bus_queue(old(self)).push(value),
            bus_queue(old(self)).len() >= bus_capacity(old(self)) ==> bus_queue(final(self))
                == bus_queue(old(self)),
    {
        let _ = self.tx.try_send(value);
    }

    /// Relies on `crossbeam_channel::Receiver::try_iter`: yields the
    /// queued messages in order until the queue is empty, without
    /// blocking.
    #[verifier::external_body]
    pub fn read(&mut self) -> (r: Vec<u32>)
        ensures
            bus_capacity(final(self)) == bus_capacity(old(self)),
            r@ == bus_queue(old(self)),
            bus_queue(final(self)) == Seq::<u32>::empty(),
    {
        self.rx.try_iter().collect()
    }
}

impl Default for Bus {
    /// A pipe at the default monitor capacity.
    fn default() -> (r: Bus)
        ensures
            bus_queue(&r) == Seq::<u32>::empty(),
            bus_capacity(&r) == BUFFER_SIZE,
    {
        Bus::new(BUFFER_SIZE)
    }
}

/// The queue after publishing `samples` in order into a pipe of capacity
/// `cap` holding `q`: each sample in turn is appended if there is room and
/// dropped otherwise.
pub open spec fn spec_lossy_publish(q: Seq<u32>, cap: nat, samples: Seq<u32>) -> Seq<u32>
    decreases samples.len(),
{
    if samples.len() == 0 {
        q
    } else {
        let q1 = if q.len() < cap {
            q.push(samples[0])
        } else {
            q
        };
        spec_lossy_publish(q1, cap, samples.subrange(1, samples.len() as int))
    }
}

/// Publishes a block of monitor samples, oldest first, dropping samples
/// once the pipe is full.
pub fn publish_block(bus: &mut Bus, samples: &Vec<u32>)
    ensures
        bus_capacity(final(bus)) == bus_capacity(old(bus)),
        bus_queue(final(bus)) == spec_lossy_publish(
            bus_queue(old(bus)),
            bus_capacity(old(bus)),
            samples@,
        ),
{
    let ghost q0 = bus_queue(old(bus));
    let ghost cap = bus_capacity(old(bus));
    proof {
        assert(samples@.subrange(0, samples@.len() as int) =~= samples@);
    }
    let mut i: usize = 0;
    while i < samples.len()
        invariant
            i <= samples.len(),
            bus_capacity(bus) == cap,
            spec_lossy_publish(q0, cap, samples@) == spec_lossy_publish(
                bus_queue(bus),
                cap,
                samples@.subrange(i as int, samples@.len() as int),
            ),
        decreases samples.len() - i,
    {
        proof {
            let rest = samples@.subrange(i as int, samples@.len() as int);
            assert(rest[0] == samples@[i as int]);
            assert(rest.subrange(1, rest.len() as int) =~= samples@.subrange(
                i as int + 1,
                samples@.len() as int,
            ));
        }
        bus.send(samples[i]);
        i = i + 1;
    }
    proof {
        assert(samples@.subrange(samples@.len() as int, samples@.len() as int)
            =~= Seq::<u32>::empty());
    }
}

} // verus!
