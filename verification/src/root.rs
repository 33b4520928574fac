//! Framework-root discovery.
//!
//! The shell probes each ancestor of the working directory, nearest first,
//! and records for each whether it holds an `addons` directory with a `core`
//! or `apple_native` child.  The library decides, from those probes alone,
//! which ancestor is the framework root.

use vstd::prelude::*;

verus! {

/// What the shell observed about one ancestor directory.  Index 0 of a probe
/// sequence is the starting directory itself; higher indices are farther
/// ancestors.
#[derive(Clone, Copy, Debug, PartialEq, Eq, Structural)]
pub struct AncestorProbe {
    /// The ancestor has an `addons` child that is a directory.
    pub has_addons_dir: bool,
    /// That `addons` directory has a `core` child.
    pub has_core_child: bool,
    /// That `addons` directory has an `apple_native` child.
    pub has_native_child: bool,
}

/// Whether an ancestor looks like the framework root.
pub open spec fn qualifies(a: AncestorProbe) -> bool {
    a.has_addons_dir && (a.has_core_child || a.has_native_child)
}

/// The index of the nearest qualifying ancestor, if any.
pub open spec fn nearest_root_index(probes: Seq<AncestorProbe>) -> Option<int>
    decreases probes.len(),
{
    if probes.len() == 0 {
        None
    } else if qualifies(probes.first()) {
        Some(0)
    } else {
        match nearest_root_index(probes.drop_first()) {
            Some(i) => Some(i + 1),
            None => None,
        }
    }
}

/// The nearest qualifying ancestor qualifies, nothing nearer does, and a
/// `None` result means nothing qualifies at all.
pub proof fn lemma_nearest_root_index_properties(probes: Seq<AncestorProbe>)
    ensures
        match nearest_root_index(probes) {
            Some(i) => 0 <= i < probes.len() && qualifies(probes[i]) && (forall|j: int|
                0 <= j < i ==> !qualifies(probes[j])),
            None => forall|j: int| 0 <= j < probes.len() ==> !qualifies(probes[j]),
        },
    decreases probes.len(),
{
    if probes.len() > 0 && !qualifies(probes.first()) {
        lemma_nearest_root_index_properties(probes.drop_first());
        assert forall|j: int| 1 <= j < probes.len() implies probes.drop_first()[j - 1] == probes[j]
        by {}
    }
}

/// The first qualifying index is the nearest root.
pub proof fn lemma_nearest_root_index_found(probes: Seq<AncestorProbe>, i: int)
    requires
        0 <= i < probes.len(),
        qualifies(probes[i]),
        forall|j: int| 0 <= j < i ==> !qualifies(probes[j]),
    ensures
        nearest_root_index(probes) == Some(i),
    decreases probes.len(),
{
    if i == 0 {
    } else {
        assert(!qualifies(probes.first()));
        lemma_nearest_root_index_found(probes.drop_first(), i - 1);
    }
}

/// With no qualifying ancestor there is no root.
pub proof fn lemma_nearest_root_index_none(probes: Seq<AncestorProbe>)
    requires
        forall|j: int| 0 <= j < probes.len() ==> !qualifies(probes[j]),
    ensures
        nearest_root_index(probes) is None,
    decreases probes.len(),
{
    if probes.len() > 0 {
        lemma_nearest_root_index_none(probes.drop_first());
    }
}

/// A qualifying ancestor is never skipped in favour of a farther one: if any
/// ancestor qualifies, the resolver's answer exists and is at least as near.
pub proof fn lemma_root_resolution_nearest(probes: Seq<AncestorProbe>, j: int)
    requires
        0 <= j < probes.len(),
        qualifies(probes[j]),
    ensures
        nearest_root_index(probes) matches Some(i) && 0 <= i <= j && qualifies(probes[i]),
{
    lemma_nearest_root_index_properties(probes);
    if nearest_root_index(probes) is None {
        assert(!qualifies(probes[j]));
    }
    let i = nearest_root_index(probes)->0;
    if i > j {
        assert(!qualifies(probes[j]));
    }
}

/// Picks the nearest qualifying ancestor.
pub fn resolve_root(probes: &Vec<AncestorProbe>) -> (r: Option<usize>)
    ensures
        match r {
            Some(i) => nearest_root_index(probes@) == Some(i as int),
            None => nearest_root_index(probes@) is None,
        },
{
    let mut i: usize = 0;
    while i < probes.len()
        invariant
            0 <= i <= probes@.len(),
            forall|j: int| 0 <= j < i ==> !qualifies(probes@[j]),
        decreases probes@.len() - i,
    {
        let p = probes[i];
        if p.has_addons_dir && (p.has_core_child || p.has_native_child) {
            proof {
                lemma_nearest_root_index_found(probes@, i as int);
            }
            return Some(i);
        }
        i = i + 1;
    }
    proof {
        lemma_nearest_root_index_none(probes@);
    }
    None
}

} // verus!
