use std::collections::VecDeque;
use vstd::prelude::*;

verus! {

/// `props` without any occurrence of `entity`, order kept.
pub open spec fn without(props: Seq<u64>, entity: u64) -> Seq<u64>
    decreases props.len(),
{
    if props.len() == 0 {
        props
    } else if props.last() == entity {
        without(props.drop_last(), entity)
    } else {
        without(props.drop_last(), entity).push(props.last())
    }
}

/// The queue limit actually enforced (at least one prop).
pub open spec fn effective_limit(limit: usize) -> int {
    if limit >= 1 { limit as int } else { 1 }
}

/// Props spawned at runtime, oldest first, capped so the sandbox cannot
/// flood the physics world. Entities are identified by their id bits.
#[derive(Debug)]
pub struct RuntimeProps {
    pub props: VecDeque<u64>,
    pub limit: usize,
}

impl RuntimeProps {
    pub fn new(limit: usize) -> (r: Self)
        ensures
            r.props@.len() == 0,
            r.limit == limit,
    {
        RuntimeProps { props: VecDeque::new(), limit }
    }

    /// Track a new prop; the oldest props beyond the limit leave the queue
    /// and are returned (oldest first) for despawning.
    pub fn track(&mut self, entity: u64) -> (evicted: Vec<u64>)
        ensures
            final(self).limit == old(self).limit,
            ({
                let all = old(self).props@.push(entity);
                let cut = if all.len() > effective_limit(old(self).limit) { all.len() - effective_limit(old(self).limit) } else { 0 };
                &&& evicted@ == all.take(cut)
                &&& final(self).props@ == all.skip(cut)
            }),
            final(self).props@.len() <= effective_limit(old(self).limit),
    {
        let ghost all = self.props@.push(entity);
        self.props.push_back(entity);
        let limit = if self.limit >= 1 { self.limit } else { 1 };
        let mut evicted: Vec<u64> = Vec::new();
        while self.props.len() > limit
            invariant
                self.limit == old(self).limit,
                limit == effective_limit(self.limit),
                limit >= 1,
                evicted@.len() <= all.len(),
                evicted@.len() > 0 ==> self.props@.len() >= limit,
                evicted@ == all.take(evicted@.len() as int),
                self.props@ == all.skip(evicted@.len() as int),
            decreases self.props@.len(),
        {
            let ghost before = self.props@;
            match self.props.pop_front() {
                Some(oldest) => {
                    evicted.push(oldest);
                    assert(evicted@ =~= all.take(evicted@.len() as int));
                    assert(self.props@ =~= all.skip(evicted@.len() as int));
                },
                None => {},
            }
        }
        evicted
    }

    /// Stop tracking `entity` (it was removed some other way).
    pub fn forget(&mut self, entity: u64)
        ensures
            final(self).limit == old(self).limit,
            final(self).props@ == without(old(self).props@, entity),
    {
        let ghost original = self.props@;
        let mut kept: VecDeque<u64> = VecDeque::new();
        let mut i: usize = 0;
        while i < self.props.len()
            invariant
                self.props@ == original,
                i <= original.len(),
                kept@ == without(original.take(i as int), entity),
            decreases original.len() - i,
        {
            let p = self.props[i];
            if p != entity {
                kept.push_back(p);
            }
            assert(original.take(i + 1).drop_last() =~= original.take(i as int));
            i = i + 1;
        }
        assert(original.take(original.len() as int) =~= original);
        self.props = kept;
    }
}

} // verus!
