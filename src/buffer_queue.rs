//! Ownership bookkeeping for a fixed-depth queue of driver-mapped buffers.
//!
//! Each slot is owned either by the driver or by user code. Enqueueing hands
//! a slot to the driver; dequeueing takes a completed slot back.
use vstd::prelude::*;
use crate::error::PipelineError;

verus! {

/// Transfer direction of a queue, seen from user code.
#[derive(Debug, Clone, Copy, PartialEq, Eq, Structural)]
pub enum Direction {
    /// User code fills buffers and the device consumes them.
    Input,
    /// The device fills buffers and user code reads them.
    Output,
}

/// Who may touch a buffer slot.
#[derive(Debug, Clone, Copy, PartialEq, Eq, Structural)]
pub enum Owner {
    Driver,
    User,
}

/// Number of slots in `s` owned by `o`.
pub open spec fn count_owned(s: Seq<Owner>, o: Owner) -> nat
    decreases s.len(),
{
    if s.len() == 0 {
        0
    } else {
        count_owned(s.drop_last(), o) + if s.last() == o { 1nat } else { 0nat }
    }
}

/// Every slot of `s` is owned by `o`.
pub open spec fn all_owned_by(s: Seq<Owner>, o: Owner) -> bool {
    forall|i: int| 0 <= i < s.len() ==> #[trigger] s[i] == o
}

/// Each slot has one owner, so the two counts make up the depth.
pub proof fn lemma_owner_counts(s: Seq<Owner>)
    ensures
        count_owned(s, Owner::Driver) + count_owned(s, Owner::User) == s.len(),
    decreases s.len(),
{
    if s.len() > 0 {
        lemma_owner_counts(s.drop_last());
    }
}

/// The ledger of one buffer queue.
pub struct BufferQueue {
    direction: Direction,
    owners: Vec<Owner>,
    streaming: bool,
}

impl BufferQueue {
    /// Owner of each slot, by index.
    pub closed spec fn owners(&self) -> Seq<Owner> {
        self.owners@
    }

    pub closed spec fn direction(&self) -> Direction {
        self.direction
    }

    pub closed spec fn is_streaming(&self) -> bool {
        self.streaming
    }

    /// A queue has at least one slot.
    pub open spec fn wf(&self) -> bool {
        self.owners().len() >= 1
    }

    /// A freshly allocated queue: every slot is the user's and nothing streams.
    pub fn new(direction: Direction, depth: usize) -> (r: Self)
        requires
            depth >= 1,
        ensures
            r.wf(),
            r.direction() == direction,
            r.owners().len() == depth,
            all_owned_by(r.owners(), Owner::User),
            !r.is_streaming(),
    {
        let mut owners: Vec<Owner> = Vec::new();
        let mut i: usize = 0;
        while i < depth
            invariant
                i <= depth,
                owners@.len() == i,
                all_owned_by(owners@, Owner::User),
            decreases depth - i,
        {
            owners.push(Owner::User);
            i = i + 1;
        }
        BufferQueue { direction, owners, streaming: false }
    }

    pub fn depth(&self) -> (r: usize)
        ensures
            r == self.owners().len(),
    {
        self.owners.len()
    }

    pub fn direction_of(&self) -> (r: Direction)
        ensures
            r == self.direction(),
    {
        self.direction
    }

    pub fn streaming(&self) -> (r: bool)
        ensures
            r == self.is_streaming(),
    {
        self.streaming
    }

    /// Number of slots owned by `owner`.
    pub fn count(&self, owner: Owner) -> (r: usize)
        ensures
            r == count_owned(self.owners(), owner),
    {
        let mut n: usize = 0;
        let mut i: usize = 0;
        while i < self.owners.len()
            invariant
                i <= self.owners@.len(),
                n == count_owned(self.owners@.subrange(0, i as int), owner),
                n <= i,
            decreases self.owners@.len() - i,
        {
            assert(self.owners@.subrange(0, i + 1).drop_last() =~= self.owners@.subrange(0, i as int));
            if self.owners[i] == owner {
                n = n + 1;
            }
            i = i + 1;
        }
        assert(self.owners@.subrange(0, i as int) =~= self.owners@);
        n
    }

    /// Slots the driver holds: work it has yet to hand back.
    pub fn driver_count(&self) -> (r: usize)
        ensures
            r == count_owned(self.owners(), Owner::Driver),
    {
        self.count(Owner::Driver)
    }

    /// Slots user code holds.
    pub fn user_count(&self) -> (r: usize)
        ensures
            r == count_owned(self.owners(), Owner::User),
    {
        self.count(Owner::User)
    }

    /// Owner of slot `index`.
    pub fn owner_of(&self, index: usize) -> (r: Owner)
        requires
            index < self.owners().len(),
        ensures
            r == self.owners()[index as int],
    {
        self.owners[index]
    }

    /// Hands slot `index` from user code to the driver. Fails with `Io`, and
    /// changes nothing, where there is no such slot or the driver holds it.
    pub fn enqueue(&mut self, index: usize) -> (r: Result<(), PipelineError>)
        ensures
            final(self).direction() == old(self).direction(),
            final(self).is_streaming() == old(self).is_streaming(),
            r is Ok <==> (index < old(self).owners().len() && old(self).owners()[index as int]
                == Owner::User),
            r is Ok ==> final(self).owners() == old(self).owners().update(
                index as int,
                Owner::Driver,
            ),
            r is Err ==> r == Err::<(), PipelineError>(PipelineError::Io) && *final(self) == *old(
                self,
            ),
    {
        if index < self.owners.len() && self.owners[index] == Owner::User {
            self.owners.set(index, Owner::Driver);
            Ok(())
        } else {
            Err(PipelineError::Io)
        }
    }

    /// Takes back slot `index`, which the driver reports as completed. Fails
    /// with `Io`, and changes nothing, where there is no such slot or the
    /// driver does not hold it.
    pub fn dequeue(&mut self, index: usize) -> (r: Result<(), PipelineError>)
        ensures
            final(self).direction() == old(self).direction(),
            final(self).is_streaming() == old(self).is_streaming(),
            r is Ok <==> (index < old(self).owners().len() && old(self).owners()[index as int]
                == Owner::Driver),
            r is Ok ==> final(self).owners() == old(self).owners().update(
                index as int,
                Owner::User,
            ),
            r is Err ==> r == Err::<(), PipelineError>(PipelineError::Io) && *final(self) == *old(
                self,
            ),
    {
        if index < self.owners.len() && self.owners[index] == Owner::Driver {
            self.owners.set(index, Owner::User);
            Ok(())
        } else {
            Err(PipelineError::Io)
        }
    }

    /// Starts streaming. An input queue must first have handed every slot to
    /// the driver, so that the device has work at once.
    pub fn start(&mut self)
        requires
            old(self).direction() == Direction::Input ==> all_owned_by(
                old(self).owners(),
                Owner::Driver,
            ),
        ensures
            final(self).direction() == old(self).direction(),
            final(self).owners() == old(self).owners(),
            final(self).is_streaming(),
    {
        self.streaming = true;
    }

    /// Stops streaming; the driver gives up every slot it held.
    pub fn stop(&mut self)
        ensures
            final(self).direction() == old(self).direction(),
            final(self).owners().len() == old(self).owners().len(),
            all_owned_by(final(self).owners(), Owner::User),
            !final(self).is_streaming(),
    {
        let n = self.owners.len();
        let mut i: usize = 0;
        while i < n
            invariant
                n == self.owners@.len(),
                n == old(self).owners@.len(),
                self.direction == old(self).direction,
                i <= n,
                forall|j: int| 0 <= j < i ==> #[trigger] self.owners@[j] == Owner::User,
            decreases n - i,
        {
            self.owners.set(i, Owner::User);
            i = i + 1;
        }
        self.streaming = false;
    }
}

} // verus!
