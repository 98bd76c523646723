use vstd::prelude::*;

verus! {

/// The two sides of a bot match; the player fights for `Alpha`.
#[derive(Debug, Clone, Copy, PartialEq, Eq, Structural)]
pub enum Team {
    Alpha,
    Bravo,
}

impl Team {
    pub open spec fn spec_opponent(self) -> Team {
        match self {
            Team::Alpha => Team::Bravo,
            Team::Bravo => Team::Alpha,
        }
    }

    pub fn opponent(self) -> (t: Team)
        ensures
            t == self.spec_opponent(),
            t != self,
    {
        match self {
            Team::Alpha => Team::Bravo,
            Team::Bravo => Team::Alpha,
        }
    }
}

} // verus!
