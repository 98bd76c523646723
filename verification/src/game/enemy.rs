//! Patrol route assignment for spawned enemies.

use vstd::prelude::*;

verus! {

/// The patrol route of the enemy spawned at spawn point `index`: its own
/// route when one is declared and not empty, else the shared waypoints.
pub fn select_route<'a, T>(routes: &'a Vec<Vec<T>>, shared: &'a Vec<T>, index: usize) -> (r: &'a Vec<T>)
    ensures
        r@ == if index < routes@.len() && routes@[index as int]@.len() > 0 {
            routes@[index as int]@
        } else {
            shared@
        },
{
    if index < routes.len() && routes[index].len() > 0 {
        &routes[index]
    } else {
        shared
    }
}

} // verus!
