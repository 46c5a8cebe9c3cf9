//! Queue-family selection: which family index handles graphics work and
//! which can present to the surface. The backend enumerates the families
//! and answers the per-family present-support query; the scan over the
//! reported values is decided here.

use std::collections::HashSet;
use vstd::prelude::*;

verus! {

broadcast use vstd::std_specs::hash::group_hash_axioms;

/// What the adapter reports of one queue family, together with the
/// surface's answer whether that family can present to it.
#[derive(Clone, Copy, Debug, PartialEq, Eq, Structural)]
pub struct QueueFamilyDesc {
    pub queue_count: u32,
    pub supports_graphics: bool,
    pub supports_present: bool,
}

/// The selected family indices: one for graphics, one for presentation.
/// They may coincide.
#[derive(Clone, Copy, Debug, PartialEq, Eq)]
pub struct QueueFamilyIndices {
    pub graphics_family: Option<u32>,
    pub present_family: Option<u32>,
}

impl QueueFamilyIndices {
    /// Both selections made.
    pub open spec fn spec_is_complete(self) -> bool {
        self.graphics_family is Some && self.present_family is Some
    }

    /// No selection made yet.
    pub fn new() -> (r: QueueFamilyIndices)
        ensures
            r.graphics_family is None,
            r.present_family is None,
    {
        QueueFamilyIndices { graphics_family: None, present_family: None }
    }

    /// Whether both a graphics and a present family were found.
    pub fn is_complete(&self) -> (r: bool)
        ensures
            r == self.spec_is_complete(),
    {
        self.graphics_family.is_some() && self.present_family.is_some()
    }

    /// The two selected indices, graphics first.
    pub fn iter(&self) -> (r: Vec<u32>)
        requires
            self.spec_is_complete(),
        ensures
            r@ == seq![self.graphics_family.unwrap(), self.present_family.unwrap()],
    {
        let mut r: Vec<u32> = Vec::new();
        r.push(self.graphics_family.unwrap());
        r.push(self.present_family.unwrap());
        proof {
            assert(r@ =~= seq![self.graphics_family.unwrap(), self.present_family.unwrap()]);
        }
        r
    }

    /// The set of distinct selected indices: one element where graphics and
    /// present coincide, two otherwise.
    pub fn to_unique(&self) -> (r: HashSet<u32>)
        requires
            self.spec_is_complete(),
        ensures
            r@ == set![self.graphics_family.unwrap(), self.present_family.unwrap()],
    {
        let mut unique_queue_families: HashSet<u32> = HashSet::new();
        unique_queue_families.insert(self.graphics_family.unwrap());
        unique_queue_families.insert(self.present_family.unwrap());
        proof {
            assert(unique_queue_families@ =~= set![
                self.graphics_family.unwrap(),
                self.present_family.unwrap(),
            ]);
        }
        unique_queue_families
    }

    /// The set of distinct selected indices.
    pub fn into_unique(&self) -> (r: HashSet<u32>)
        requires
            self.spec_is_complete(),
        ensures
            r@ == set![self.graphics_family.unwrap(), self.present_family.unwrap()],
    {
        self.to_unique()
    }
}

impl Default for QueueFamilyIndices {
    /// No selection made yet.
    fn default() -> (r: QueueFamilyIndices)
        ensures
            r.graphics_family is None,
            r.present_family is None,
    {
        QueueFamilyIndices { graphics_family: None, present_family: None }
    }
}

/// One scan step: family `i` takes over the graphics selection where it has
/// queues and graphics support, and the present selection where it can
/// present.
pub open spec fn scan_step(acc: QueueFamilyIndices, f: QueueFamilyDesc, i: int) -> QueueFamilyIndices {
    QueueFamilyIndices {
        graphics_family: if f.queue_count > 0 && f.supports_graphics {
            Some(i as u32)
        } else {
            acc.graphics_family
        },
        present_family: if f.supports_present {
            Some(i as u32)
        } else {
            acc.present_family
        },
    }
}

/// The scan from family `i` on, stopping as soon as both selections are
/// made.
pub open spec fn scan_from(
    families: Seq<QueueFamilyDesc>,
    acc: QueueFamilyIndices,
    i: int,
) -> QueueFamilyIndices
    decreases families.len() - i,
{
    if i < 0 || i >= families.len() || acc.spec_is_complete() {
        acc
    } else {
        scan_from(families, scan_step(acc, families[i], i), i + 1)
    }
}

/// What the whole scan selects, starting with nothing selected.
pub open spec fn spec_find_queue_families(families: Seq<QueueFamilyDesc>) -> QueueFamilyIndices {
    scan_from(
        families,
        QueueFamilyIndices { graphics_family: None, present_family: None },
        0,
    )
}

/// Scans the reported queue families in order, taking the latest family
/// seen for each role, and stops at the first point where both roles are
/// filled.
pub fn find_queue_families(families: &Vec<QueueFamilyDesc>) -> (r: QueueFamilyIndices)
    requires
        families@.len() <= u32::MAX,
    ensures
        r == spec_find_queue_families(families@),
{
    let mut indices = QueueFamilyIndices::new();
    let n = families.len();
    let mut i: usize = 0;
    while i < n && !indices.is_complete()
        invariant
            n == families@.len(),
            n <= u32::MAX,
            0 <= i <= n,
            scan_from(families@, indices, i as int) == spec_find_queue_families(families@),
        decreases n - i,
    {
        let ghost prev = indices;
        let f = families[i];
        if f.queue_count > 0 && f.supports_graphics {
            indices.graphics_family = Some(i as u32);
        }
        if f.supports_present {
            indices.present_family = Some(i as u32);
        }
        proof {
            assert(indices == scan_step(prev, families@[i as int], i as int));
            assert(scan_from(families@, prev, i as int) == scan_from(
                families@,
                indices,
                i + 1,
            ));
        }
        i = i + 1;
    }
    indices
}

} // verus!
