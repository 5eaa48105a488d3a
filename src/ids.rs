//! The identifier sequences: one counter per kind of record, each handing
//! out 1, 2, 3, ... in turn. It is an ordinary value, so callers own it and
//! tests can start it afresh.
use vstd::prelude::*;

verus! {

/// The kinds of record that get numeric identifiers.
#[derive(Clone, Copy, Debug, PartialEq, Eq, Structural)]
pub enum EntityKind {
    User,
    Tutor,
    Message,
    ConnectionRequest,
    Connection,
    StudyGroup,
    GroupMembership,
    Task,
    TaskCompletion,
    LearningMetrics,
    LearningProgress,
}

/// How many kinds there are.
pub const KIND_COUNT: usize = 11;

/// The position of a kind's counter.
pub open spec fn kind_slot(k: EntityKind) -> int {
    match k {
        EntityKind::User => 0,
        EntityKind::Tutor => 1,
        EntityKind::Message => 2,
        EntityKind::ConnectionRequest => 3,
        EntityKind::Connection => 4,
        EntityKind::StudyGroup => 5,
        EntityKind::GroupMembership => 6,
        EntityKind::Task => 7,
        EntityKind::TaskCompletion => 8,
        EntityKind::LearningMetrics => 9,
        EntityKind::LearningProgress => 10,
    }
}

fn slot_of(k: EntityKind) -> (r: usize)
    ensures
        r == kind_slot(k),
        r < KIND_COUNT,
{
    match k {
        EntityKind::User => 0,
        EntityKind::Tutor => 1,
        EntityKind::Message => 2,
        EntityKind::ConnectionRequest => 3,
        EntityKind::Connection => 4,
        EntityKind::StudyGroup => 5,
        EntityKind::GroupMembership => 6,
        EntityKind::Task => 7,
        EntityKind::TaskCompletion => 8,
        EntityKind::LearningMetrics => 9,
        EntityKind::LearningProgress => 10,
    }
}

/// One counter per kind of record: the last identifier handed out, 0 if none.
pub struct IdAllocator {
    last: Vec<u64>,
}

impl IdAllocator {
    /// The allocator holds one counter for each kind.
    pub closed spec fn wf(&self) -> bool {
        self.last@.len() == KIND_COUNT
    }

    /// The last identifier handed out for kind `k`, 0 if none.
    pub closed spec fn last_issued(&self, k: EntityKind) -> u64 {
        self.last@[kind_slot(k)]
    }

    /// An allocator that has handed out nothing.
    pub fn new() -> (r: Self)
        ensures
            r.wf(),
            forall|k: EntityKind| r.last_issued(k) == 0,
    {
        let mut last: Vec<u64> = Vec::new();
        let mut i: usize = 0;
        while i < KIND_COUNT
            invariant
                i <= KIND_COUNT,
                last@.len() == i,
                forall|j: int| 0 <= j < i ==> last@[j] == 0,
            decreases KIND_COUNT - i,
        {
            last.push(0);
            i += 1;
        }
        IdAllocator { last }
    }

    /// The last identifier handed out for kind `k`, 0 if none.
    pub fn last(&self, k: EntityKind) -> (r: u64)
        requires
            self.wf(),
        ensures
            r == self.last_issued(k),
    {
        self.last[slot_of(k)]
    }

    /// Hands out the next identifier of kind `k`, one past the last; `None`
    /// once the kind's identifiers are used up. The other kinds are left
    /// alone.
    pub fn next_id(&mut self, k: EntityKind) -> (r: Option<u64>)
        requires
            old(self).wf(),
        ensures
            final(self).wf(),
            old(self).last_issued(k) < u64::MAX ==> r == Some((old(self).last_issued(k) + 1) as u64)
                && final(self).last_issued(k) == old(self).last_issued(k) + 1,
            old(self).last_issued(k) == u64::MAX ==> r is None && final(self).last_issued(k)
                == old(self).last_issued(k),
            forall|o: EntityKind| o != k ==> final(self).last_issued(o) == old(self).last_issued(o),
    {
        let s = slot_of(k);
        let current = self.last[s];
        if current == u64::MAX {
            return None;
        }
        self.last.set(s, current + 1);
        proof {
            assert forall|o: EntityKind| o != k implies kind_slot(o) != kind_slot(k) by {}
        }
        Some(current + 1)
    }
}

} // verus!
