//! The single-slot mailbox through which the tracking side hands the latest
//! snapshot to the graphics side.
//!
//! The slot holds the current snapshot or nothing, and the only way to touch
//! it is to exchange its content for another. The producer puts a finished
//! snapshot in and gets back what was there. The consumer takes out what is
//! there and leaves nothing; where it finds nothing, it goes on with the last
//! snapshot it took. Neither side ever waits for the other.
//!
//! Each exchange is one indivisible step. Here the slot is a plain value and
//! an exchange is a call that borrows it; whoever shares a slot between two
//! execution contexts makes each call one atomic step of theirs.

use vstd::prelude::*;

verus! {

/// The shared slot.
pub struct ExchangeSlot<T> {
    current: Option<T>,
}

/// The consumer's side: the last snapshot it took out of a slot.
pub struct SnapshotReader<T> {
    cached: Option<T>,
}

/// One step on a channel: the producer publishes a snapshot, or the consumer reads.
pub enum ExchangeStep<T> {
    Publish(T),
    Read,
}

/// A slot together with the cache of its one consumer.
pub struct Channel<T> {
    /// What the slot holds.
    pub slot: Option<T>,
    /// What the consumer took last.
    pub cached: Option<T>,
}

impl<T> Channel<T> {
    /// A channel on which nothing was published.
    pub open spec fn fresh() -> Channel<T> {
        Channel { slot: None, cached: None }
    }

    /// What a read would return: what the slot holds, or else what the consumer took last.
    pub open spec fn visible(self) -> Option<T> {
        match self.slot {
            Some(snapshot) => Some(snapshot),
            None => self.cached,
        }
    }

    /// The channel after the producer has published a snapshot.
    pub open spec fn published(self, snapshot: T) -> Channel<T> {
        Channel { slot: Some(snapshot), ..self }
    }

    /// The channel after the consumer has read: the slot is empty and the
    /// consumer holds what it saw.
    pub open spec fn consumed(self) -> Channel<T> {
        Channel { slot: None, cached: self.visible() }
    }

    /// The channel after one step.
    pub open spec fn step(self, step: ExchangeStep<T>) -> Channel<T> {
        match step {
            ExchangeStep::Publish(snapshot) => self.published(snapshot),
            ExchangeStep::Read => self.consumed(),
        }
    }

    /// The channel after a run of steps, starting from a fresh one.
    pub open spec fn after(steps: Seq<ExchangeStep<T>>) -> Channel<T>
        decreases steps.len(),
    {
        if steps.len() == 0 {
            Channel::fresh()
        } else {
            Channel::after(steps.drop_last()).step(steps.last())
        }
    }
}

/// The snapshot published last in a run of steps, if any was.
pub open spec fn latest_published<T>(steps: Seq<ExchangeStep<T>>) -> Option<T>
    decreases steps.len(),
{
    if steps.len() == 0 {
        None
    } else {
        match steps.last() {
            ExchangeStep::Publish(snapshot) => Some(snapshot),
            ExchangeStep::Read => latest_published(steps.drop_last()),
        }
    }
}

impl<T> View for ExchangeSlot<T> {
    type V = Option<T>;

    closed spec fn view(&self) -> Option<T> {
        self.current
    }
}

impl<T> View for SnapshotReader<T> {
    type V = Option<T>;

    closed spec fn view(&self) -> Option<T> {
        self.cached
    }
}

impl<T> ExchangeSlot<T> {
    /// An empty slot.
    pub fn new() -> (slot: ExchangeSlot<T>)
        ensures
            slot@ == None::<T>,
    {
        ExchangeSlot { current: None }
    }

    /// Puts `replacement` into the slot and hands back what the slot held.
    pub fn exchange(&mut self, replacement: Option<T>) -> (previous: Option<T>)
        ensures
            previous == old(self)@,
            final(self)@ == replacement,
    {
        let mut held = replacement;
        std::mem::swap(&mut self.current, &mut held);
        held
    }

    /// The producer's step: puts a snapshot into the slot. What comes back is
    /// the snapshot that no consumer took, if there is one, for reuse.
    pub fn publish(&mut self, snapshot: T) -> (unread: Option<T>)
        ensures
            unread == old(self)@,
            final(self)@ == Some(snapshot),
    {
        self.exchange(Some(snapshot))
    }

    /// The consumer's raw step: empties the slot and hands back what it held.
    pub fn take(&mut self) -> (snapshot: Option<T>)
        ensures
            snapshot == old(self)@,
            final(self)@ == None::<T>,
    {
        self.exchange(None)
    }
}

impl<T: Copy> SnapshotReader<T> {
    /// A consumer that has taken nothing yet.
    pub fn new() -> (reader: SnapshotReader<T>)
        ensures
            reader@ == None::<T>,
    {
        SnapshotReader { cached: None }
    }

    /// The consumer's step: the snapshot in the slot, which it takes out and
    /// keeps, or else the one it took last. `None` only where nothing was
    /// ever published to this consumer.
    pub fn read(&mut self, slot: &mut ExchangeSlot<T>) -> (snapshot: Option<T>)
        ensures
            snapshot == (Channel { slot: old(slot)@, cached: old(self)@ }).visible(),
            (Channel { slot: final(slot)@, cached: final(self)@ }) == (Channel {
                slot: old(slot)@,
                cached: old(self)@,
            }).consumed(),
    {
        match slot.take() {
            Some(fresh) => {
                self.cached = Some(fresh);
            },
            None => {},
        }
        self.cached
    }

    /// The snapshot that the consumer took last.
    pub fn last(&self) -> (snapshot: Option<T>)
        ensures
            snapshot == self@,
    {
        self.cached
    }
}

/// After any run of publishes and reads, a read returns the snapshot that was
/// published last. So a read never returns nothing once something was
/// published, and what it returns was published in full by one call.
pub proof fn law_read_sees_latest_publish<T>(steps: Seq<ExchangeStep<T>>)
    ensures
        Channel::after(steps).visible() == latest_published(steps),
    decreases steps.len(),
{
    if steps.len() > 0 {
        law_read_sees_latest_publish(steps.drop_last());
    }
}

/// A read changes nothing that a later read can see: however many reads
/// follow a run of steps, each returns what the first of them returned.
pub proof fn law_reads_repeat<T>(steps: Seq<ExchangeStep<T>>, reads: nat)
    ensures
        Channel::after(steps + Seq::new(reads, |i: int| ExchangeStep::<T>::Read)).visible()
            == Channel::after(steps).visible(),
    decreases reads,
{
    let tail = Seq::new(reads, |i: int| ExchangeStep::<T>::Read);
    if reads == 0 {
        assert(steps + tail =~= steps);
    } else {
        let shorter = Seq::new((reads - 1) as nat, |i: int| ExchangeStep::<T>::Read);
        law_reads_repeat(steps, (reads - 1) as nat);
        assert((steps + tail).drop_last() =~= steps + shorter);
        assert((steps + tail).last() == ExchangeStep::<T>::Read);
    }
}

/// Once a snapshot was published, every read returns one.
pub proof fn law_no_empty_read_after_publish<T>(steps: Seq<ExchangeStep<T>>, first: int)
    requires
        0 <= first < steps.len(),
        steps[first] is Publish,
    ensures
        Channel::after(steps).visible() is Some,
    decreases steps.len(),
{
    if first < steps.len() - 1 {
        law_no_empty_read_after_publish(steps.drop_last(), first);
    }
}

} // verus!
