//! Each missing asset handle is reported once, not at frame rate.

use std::collections::HashSet;
use vstd::prelude::*;

verus! {

broadcast use vstd::std_specs::hash::group_hash_axioms;

/// Which store a missing handle was looked up in.
#[derive(Debug, Clone, Copy, PartialEq, Eq, Structural)]
pub enum AssetKind {
    Mesh,
    Material,
}

/// The handles already reported missing, per kind.
#[derive(Debug)]
pub struct MissingAssetLog {
    meshes: HashSet<u64>,
    materials: HashSet<u64>,
}

impl MissingAssetLog {
    /// The handle ids of `kind` already reported.
    pub closed spec fn reported(&self, kind: AssetKind) -> Set<u64> {
        match kind {
            AssetKind::Mesh => self.meshes@,
            AssetKind::Material => self.materials@,
        }
    }

    pub fn new() -> (log: Self)
        ensures
            log.reported(AssetKind::Mesh) == Set::<u64>::empty(),
            log.reported(AssetKind::Material) == Set::<u64>::empty(),
    {
        MissingAssetLog { meshes: HashSet::new(), materials: HashSet::new() }
    }

    /// Record that handle `id` of `kind` is missing; true the first time
    /// only, when the caller should report it.
    pub fn first_report(&mut self, kind: AssetKind, id: u64) -> (first: bool)
        ensures
            first == !old(self).reported(kind).contains(id),
            final(self).reported(kind) == old(self).reported(kind).insert(id),
            forall|other: AssetKind| other != kind ==> final(self).reported(other) == old(self).reported(other),
    {
        match kind {
            AssetKind::Mesh => self.meshes.insert(id),
            AssetKind::Material => self.materials.insert(id),
        }
    }
}

} // verus!
