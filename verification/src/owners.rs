use vstd::prelude::*;

verus! {

/// The number of owners after one more tries to join. Nobody can join a
/// group that has no owner left: its handle is gone.
pub open spec fn after_join(count: nat) -> nat {
    if count > 0 {
        count + 1
    } else {
        0
    }
}

/// The number of owners after one of them leaves.
pub open spec fn after_leave(count: nat) -> nat {
    if count > 0 {
        (count - 1) as nat
    } else {
        0
    }
}

/// The number of owners after `times` attempts to join, one after another.
pub open spec fn after_joins(count: nat, times: nat) -> nat
    decreases times,
{
    if times == 0 {
        count
    } else {
        after_joins(after_join(count), (times - 1) as nat)
    }
}

/// The owners of one handle, counted. The handle lives as long as the count
/// is above zero, and is released by the owner that takes it to zero.
pub struct Owners {
    strong: usize,
}

impl Owners {
    /// How many owners there are.
    pub closed spec fn count(&self) -> nat {
        self.strong as nat
    }

    /// Whether an owner is left, and with it the handle.
    pub open spec fn is_live(&self) -> bool {
        self.count() > 0
    }

    /// A group of one: the creator of the handle.
    pub fn new() -> (owners: Owners)
        ensures
            owners.count() == 1,
    {
        Owners { strong: 1 }
    }

    /// Whether an owner is left.
    pub fn live(&self) -> (live: bool)
        ensures
            live == self.is_live(),
    {
        self.strong > 0
    }

    /// How many owners there are.
    pub fn strong_count(&self) -> (count: usize)
        ensures
            count == self.count(),
    {
        self.strong
    }

    /// One more owner joins, if the group is still alive.
    pub fn retain(&mut self) -> (joined: bool)
        requires
            old(self).count() < usize::MAX,
        ensures
            joined == old(self).is_live(),
            final(self).count() == after_join(old(self).count()),
    {
        if self.strong > 0 {
            self.strong = self.strong + 1;
            true
        } else {
            false
        }
    }

    /// One owner leaves. The result tells whether it was the last one, who
    /// has to release the handle.
    pub fn release(&mut self) -> (last: bool)
        ensures
            last == (old(self).count() == 1),
            final(self).count() == after_leave(old(self).count()),
    {
        if self.strong > 0 {
            self.strong = self.strong - 1;
            self.strong == 0
        } else {
            false
        }
    }
}

/// Any number of attempts to join a live group all succeed, each adding one
/// owner; on a group without owners every attempt fails and nothing changes.
pub proof fn lemma_joins(count: nat, times: nat)
    ensures
        count > 0 ==> after_joins(count, times) == count + times,
        count == 0 ==> after_joins(count, times) == 0,
        forall|earlier: nat|
            earlier <= times ==> (#[trigger] after_joins(count, earlier) > 0 <==> count > 0),
    decreases times,
{
    if times > 0 {
        lemma_joins(after_join(count), (times - 1) as nat);
        lemma_joins(count, (times - 1) as nat);
        assert forall|earlier: nat| earlier <= times implies (#[trigger] after_joins(
            count,
            earlier,
        ) > 0 <==> count > 0) by {
            if earlier == times {
                assert(after_joins(count, times) == after_joins(
                    after_join(count),
                    (times - 1) as nat,
                ));
            }
        }
    }
}

/// A handle is released once and no more: the owner that leaves a group of
/// one is the last, and after it nobody joins and nobody is last again.
pub proof fn lemma_released_once(count: nat)
    ensures
        count == 1 ==> after_leave(count) == 0,
        after_join(0) == 0,
        after_leave(0) == 0,
        count > 1 ==> after_leave(count) > 0,
        after_leave(after_join(count)) == count,
{
}

} // verus!
