use vstd::prelude::*;

verus! {

/// Cap on simultaneously alive ragdolls; the oldest is removed beyond this.
pub const MAX_RAGDOLLS: usize = 6;

/// Marks one body part of a spawned ragdoll (`id` groups the parts of one doll).
#[derive(Debug, Clone, Copy)]
pub struct RagdollPart {
    pub id: u64,
}

/// Running id counter and spawn order, oldest first.
#[derive(Debug, Default)]
pub struct RagdollState {
    pub next_id: u64,
    pub spawned: Vec<u64>,
}

impl RagdollState {
    /// Ids listed are distinct and already handed out.
    pub open spec fn wf(&self) -> bool {
        &&& self.spawned@.len() <= MAX_RAGDOLLS
        &&& forall|i: int| 0 <= i < self.spawned@.len() ==> 1 <= #[trigger] self.spawned@[i] <= self.next_id
        &&& forall|i: int, j: int| 0 <= i < j < self.spawned@.len() ==> self.spawned@[i] < self.spawned@[j]
    }

    /// Reserve the id of a new doll. When that puts more than
    /// [`MAX_RAGDOLLS`] dolls alive, the oldest is dropped from the list and
    /// returned so its parts can be despawned.
    pub fn register_spawn(&mut self) -> (r: (u64, Option<u64>))
        requires
            old(self).wf(),
            old(self).next_id < u64::MAX,
        ensures
            final(self).wf(),
            r.0 == old(self).next_id + 1,
            final(self).next_id == r.0,
            old(self).spawned@.len() < MAX_RAGDOLLS ==> r.1 is None && final(self).spawned@ == old(self).spawned@.push(r.0),
            old(self).spawned@.len() == MAX_RAGDOLLS ==> r.1 == Some(old(self).spawned@[0])
                && final(self).spawned@ == old(self).spawned@.push(r.0).drop_first(),
    {
        self.next_id = self.next_id + 1;
        let id = self.next_id;
        self.spawned.push(id);
        if self.spawned.len() > MAX_RAGDOLLS {
            let oldest = self.spawned.remove(0);
            (id, Some(oldest))
        } else {
            (id, None)
        }
    }
}

} // verus!
