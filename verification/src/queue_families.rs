//! Queue-family resolution: which of a device's queue families carries
//! graphics work and which one can present to the surface.

use vstd::prelude::*;

use std::collections::HashSet;

verus! {

broadcast use vstd::std_specs::hash::group_hash_axioms;

/// What one queue family of a physical device offers: whether it
/// accepts graphics commands and whether it can present to the
/// surface under consideration.
#[derive(Clone, Copy, Debug, PartialEq, Eq, Structural)]
pub struct QueueFamilySupport {
    pub graphics: bool,
    pub present: bool,
}

/// The two queue-family indices the renderer needs. Either may still
/// be absent while resolution is under way; both are fixed once the
/// logical device is built.
#[derive(Clone, Copy, Debug)]
pub struct QueueFamilyIndice {
    pub graphics_family: Option<u32>,
    pub present_family: Option<u32>,
}

impl Default for QueueFamilyIndice {
    /// Starts with neither family resolved.
    fn default() -> (r: Self)
        ensures
            r.graphics_family is None,
            r.present_family is None,
    {
        QueueFamilyIndice { graphics_family: None, present_family: None }
    }
}

impl QueueFamilyIndice {
    /// Both families are resolved in this record.
    pub open spec fn spec_is_complete(self) -> bool {
        self.graphics_family is Some && self.present_family is Some
    }

    /// The set of distinct family indices held by this record.
    pub open spec fn spec_unique_families(self) -> Set<u32> {
        let with_graphics = match self.graphics_family {
            Some(g) => Set::<u32>::empty().insert(g),
            None => Set::<u32>::empty(),
        };
        match self.present_family {
            Some(p) => with_graphics.insert(p),
            None => with_graphics,
        }
    }

    /// Whether both queue families have been found.
    pub fn is_complete(&self) -> (r: bool)
        ensures
            r == self.spec_is_complete(),
    {
        self.graphics_family.is_some() && self.present_family.is_some()
    }

    /// The distinct family indices: one entry when graphics and
    /// presentation share a family, two when they differ.
    pub fn get_unique_families(&self) -> (uniques: HashSet<u32>)
        ensures
            uniques@ == self.spec_unique_families(),
    {
        let mut uniques = HashSet::new();
        if let Some(value) = self.graphics_family {
            uniques.insert(value);
        }

        if let Some(value) = self.present_family {
            uniques.insert(value);
        }

        proof {
            assert(uniques@ =~= self.spec_unique_families());
        }
        uniques
    }
}

/// One update step of the resolution pass: a family that supports
/// graphics (or presentation) overwrites the corresponding index.
pub open spec fn spec_note_family(
    acc: QueueFamilyIndice,
    family: QueueFamilySupport,
    index: u32,
) -> QueueFamilyIndice {
    QueueFamilyIndice {
        graphics_family: if family.graphics {
            Some(index)
        } else {
            acc.graphics_family
        },
        present_family: if family.present {
            Some(index)
        } else {
            acc.present_family
        },
    }
}

/// The resolution pass from position `i` onward: stops as soon as the
/// accumulated record is complete, otherwise notes family `i` and
/// moves on.
pub open spec fn spec_resolve_from(
    acc: QueueFamilyIndice,
    families: Seq<QueueFamilySupport>,
    i: int,
) -> QueueFamilyIndice
    decreases families.len() - i,
{
    if i < 0 || i >= families.len() || acc.spec_is_complete() {
        acc
    } else {
        spec_resolve_from(spec_note_family(acc, families[i], i as u32), families, i + 1)
    }
}

/// The queue-family record that a single pass over `families` yields.
pub open spec fn spec_find_queue_families(families: Seq<QueueFamilySupport>) -> QueueFamilyIndice {
    spec_resolve_from(
        QueueFamilyIndice { graphics_family: None, present_family: None },
        families,
        0,
    )
}

/// Resolves the graphics and presentation families in a single pass
/// over the device's queue families, short-circuiting as soon as both
/// are found. The same family may serve both roles.
pub fn find_queue_families(families: &Vec<QueueFamilySupport>) -> (indices: QueueFamilyIndice)
    requires
        families@.len() <= u32::MAX,
    ensures
        indices == spec_find_queue_families(families@),
{
    let mut indices = QueueFamilyIndice { graphics_family: None, present_family: None };
    let mut i: usize = 0;
    while i < families.len()
        invariant
            families@.len() <= u32::MAX,
            0 <= i <= families@.len(),
            spec_resolve_from(indices, families@, i as int) == spec_find_queue_families(
                families@,
            ),
        decreases families@.len() - i,
    {
        if indices.is_complete() {
            return indices;
        }

        let family = families[i];
        if family.graphics {
            indices.graphics_family = Some(i as u32);
        }

        if family.present {
            indices.present_family = Some(i as u32);
        }

        i = i + 1;
    }

    indices
}

proof fn lemma_resolve_from_characterizes(
    acc: QueueFamilyIndice,
    families: Seq<QueueFamilySupport>,
    i: int,
)
    requires
        families.len() <= u32::MAX,
        0 <= i <= families.len(),
        acc.graphics_family matches Some(g) ==> 0 <= g < families.len() && families[
            g as int
        ].graphics,
        acc.present_family matches Some(p) ==> 0 <= p < families.len() && families[
            p as int
        ].present,
    ensures
        ({
            let r = spec_resolve_from(acc, families, i);
            &&& (r.graphics_family matches Some(g) ==> 0 <= g < families.len() && families[
                g as int
            ].graphics)
            &&& (r.present_family matches Some(p) ==> 0 <= p < families.len() && families[
                p as int
            ].present)
            &&& (r.graphics_family is Some <==> acc.graphics_family is Some || exists|j: int|
                i <= j < families.len() && families[j].graphics)
            &&& (r.present_family is Some <==> acc.present_family is Some || exists|j: int|
                i <= j < families.len() && families[j].present)
        }),
    decreases families.len() - i,
{
    if i >= families.len() || acc.spec_is_complete() {
    } else {
        let next = spec_note_family(acc, families[i], i as u32);
        lemma_resolve_from_characterizes(next, families, i + 1);
        let r = spec_resolve_from(acc, families, i);
        assert(r == spec_resolve_from(next, families, i + 1));
        if families[i].graphics {
            assert(i <= i < families.len() && families[i].graphics);
        }

        if families[i].present {
            assert(i <= i < families.len() && families[i].present);
        }

        assert forall|j: int| i + 1 <= j < families.len() && families[j].graphics implies exists|
            k: int,
        | i <= k < families.len() && families[k].graphics by {}

        assert forall|j: int| i + 1 <= j < families.len() && families[j].present implies exists|
            k: int,
        | i <= k < families.len() && families[k].present by {}

        if next.graphics_family is None && (exists|j: int|
            i <= j < families.len() && families[j].graphics) {
            let j = choose|j: int| i <= j < families.len() && families[j].graphics;
            assert(j != i);
            assert(i + 1 <= j < families.len() && families[j].graphics);
        }

        if next.present_family is None && (exists|j: int|
            i <= j < families.len() && families[j].present) {
            let j = choose|j: int| i <= j < families.len() && families[j].present;
            assert(j != i);
            assert(i + 1 <= j < families.len() && families[j].present);
        }
    }
}

/// What a full resolution pass yields: any index it reports does
/// support the corresponding role, and the record is complete exactly
/// when the device has a graphics-capable family and a
/// presentation-capable family at all.
pub proof fn lemma_find_queue_families_characterizes(families: Seq<QueueFamilySupport>)
    requires
        families.len() <= u32::MAX,
    ensures
        ({
            let r = spec_find_queue_families(families);
            &&& (r.graphics_family matches Some(g) ==> 0 <= g < families.len() && families[
                g as int
            ].graphics)
            &&& (r.present_family matches Some(p) ==> 0 <= p < families.len() && families[
                p as int
            ].present)
            &&& (r.spec_is_complete() <==> (exists|j: int|
                0 <= j < families.len() && families[j].graphics) && (exists|j: int|
                0 <= j < families.len() && families[j].present))
        }),
{
    let start = QueueFamilyIndice { graphics_family: None, present_family: None };
    lemma_resolve_from_characterizes(start, families, 0);
}

} // verus!
