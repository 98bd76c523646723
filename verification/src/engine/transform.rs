use vstd::prelude::*;

verus! {

/// Marks an entity whose body is frozen in place.
#[derive(Debug, Clone, Copy)]
pub struct Frozen;

/// Debug name of an entity.
#[derive(Debug, Clone, Copy)]
pub struct Name(pub &'static str);

impl Default for Name {
    fn default() -> (n: Self)
        ensures
            n.0@ == "Unnamed"@,
    {
        Name("Unnamed")
    }
}

} // verus!
