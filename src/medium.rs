//! The medium a ray is in, and whether a step crosses a material interface.
use vstd::prelude::*;

use crate::material::MaterialType;

verus! {

/// Where a ray is: in the air, in the water, or inside the region of one boundary.
#[derive(Clone, Copy, Debug, PartialEq, Eq, Structural)]
pub enum Medium {
    Air,
    Water,
    /// Inside the boundary with this index in the simulation's list.
    Layer { boundary: usize, material: MaterialType },
}

/// A boundary as seen from one horizontal position: its material, and its
/// height there as an order key, `None` where the boundary does not exist at
/// that position or its height is not finite.
///
/// Heights are compared, never computed on, so an order key stands for each:
/// an integer that orders as the heights do, zero for a height of zero.
#[derive(Clone, Copy, Debug, PartialEq, Eq, Structural)]
pub struct BoundaryLevel {
    pub height: Option<i64>,
    pub material: MaterialType,
}

/// Boundary `i` is the tallest one present, the first in the list among equals.
pub open spec fn is_tallest(levels: Seq<BoundaryLevel>, i: int) -> bool {
    &&& 0 <= i < levels.len()
    &&& levels[i].height is Some
    &&& forall|j: int|
        0 <= j < levels.len() && (#[trigger] levels[j].height) is Some ==> {
            let hi = levels[i].height->Some_0;
            let hj = levels[j].height->Some_0;
            &&& hj <= hi
            &&& (hj == hi ==> i <= j)
        }
}

/// The medium at a point of height `y` (as an order key): inside the tallest
/// boundary present if the point lies below it; otherwise air above the sea
/// surface and water at or below it.
pub open spec fn spec_locate(y: i64, levels: Seq<BoundaryLevel>) -> Medium {
    if exists|i: int| is_tallest(levels, i) && y < levels[i].height->Some_0 {
        let i = choose|i: int| is_tallest(levels, i) && y < levels[i].height->Some_0;
        Medium::Layer { boundary: i as usize, material: levels[i].material }
    } else if y > 0 {
        Medium::Air
    } else {
        Medium::Water
    }
}

proof fn lemma_tallest_unique(levels: Seq<BoundaryLevel>, i: int, j: int)
    requires
        is_tallest(levels, i),
        is_tallest(levels, j),
    ensures
        i == j,
{
    assert(levels[j].height is Some);
    assert(levels[i].height is Some);
}

/// Finds the medium at a point of height `y` (order key) given the boundaries
/// at the point's horizontal position.
pub fn locate(y: i64, levels: &Vec<BoundaryLevel>) -> (r: Medium)
    ensures
        r == spec_locate(y, levels@),
{
    let mut best: Option<usize> = None;
    let mut i: usize = 0;
    while i < levels.len()
        invariant
            i <= levels.len(),
            match best {
                Some(b) => b < i && is_tallest(levels@.take(i as int), b as int),
                None => forall|j: int| 0 <= j < i ==> (#[trigger] levels@[j].height) is None,
            },
        decreases levels.len() - i,
    {
        let ghost prefix = levels@.take(i as int);
        let ghost next = levels@.take(i as int + 1);
        match levels[i].height {
            Some(h) => {
                let better = match best {
                    Some(b) => {
                        let hb = levels[b].height.unwrap();
                        h > hb
                    },
                    None => true,
                };
                if better {
                    proof {
                        assert forall|j: int|
                            0 <= j < next.len() && (#[trigger] next[j].height) is Some implies {
                            let hi = next[i as int].height->Some_0;
                            let hj = next[j].height->Some_0;
                            &&& hj <= hi
                            &&& (hj == hi ==> i <= j)
                        } by {
                            if j < i {
                                assert(next[j] == prefix[j]);
                                match best {
                                    Some(b) => {
                                        assert(prefix[j].height is Some);
                                    },
                                    None => {
                                        assert(levels@[j].height is None);
                                    },
                                }
                            }
                        }
                    }
                    best = Some(i);
                } else {
                    proof {
                        let b = best->Some_0 as int;
                        assert forall|j: int|
                            0 <= j < next.len() && (#[trigger] next[j].height) is Some implies {
                            let hi = next[b].height->Some_0;
                            let hj = next[j].height->Some_0;
                            &&& hj <= hi
                            &&& (hj == hi ==> b <= j)
                        } by {
                            if j < i {
                                assert(next[j] == prefix[j]);
                                assert(prefix[j].height is Some);
                            }
                        }
                        assert(next[b] == prefix[b]);
                    }
                }
            },
            None => {
                proof {
                    match best {
                        Some(b) => {
                            let b = b as int;
                            assert forall|j: int|
                                0 <= j < next.len() && (#[trigger] next[j].height) is Some implies {
                                let hi = next[b].height->Some_0;
                                let hj = next[j].height->Some_0;
                                &&& hj <= hi
                                &&& (hj == hi ==> b <= j)
                            } by {
                                if j < i {
                                    assert(next[j] == prefix[j]);
                                    assert(prefix[j].height is Some);
                                }
                            }
                            assert(next[b] == prefix[b]);
                        },
                        None => {},
                    }
                }
            },
        }
        i = i + 1;
    }
    proof {
        assert(levels@.take(levels@.len() as int) == levels@);
    }
    match best {
        Some(b) => {
            let hb = levels[b].height.unwrap();
            if y < hb {
                proof {
                    assert(is_tallest(levels@, b as int));
                    let k = choose|k: int| is_tallest(levels@, k) && y < levels@[k].height->Some_0;
                    lemma_tallest_unique(levels@, k, b as int);
                }
                return Medium::Layer { boundary: b, material: levels[b].material };
            }
            proof {
                assert(is_tallest(levels@, b as int));
                if exists|k: int| is_tallest(levels@, k) && y < levels@[k].height->Some_0 {
                    let k = choose|k: int| is_tallest(levels@, k) && y < levels@[k].height->Some_0;
                    lemma_tallest_unique(levels@, k, b as int);
                }
            }
        },
        None => {
            proof {
                if exists|k: int| is_tallest(levels@, k) && y < levels@[k].height->Some_0 {
                    let k = choose|k: int| is_tallest(levels@, k) && y < levels@[k].height->Some_0;
                    assert(levels@[k].height is Some);
                }
            }
        },
    }
    if y > 0 {
        Medium::Air
    } else {
        Medium::Water
    }
}

/// The outcome of comparing the media before and after a step.
#[derive(Clone, Copy, Debug, PartialEq, Eq, Structural)]
pub enum Crossing {
    /// No material interface was crossed.
    Stay,
    /// An interface was crossed; the surface of this boundary reflects.
    Interface { boundary: usize },
}

/// Media are told apart by material; air and water count as no boundary.
pub open spec fn spec_crossing(before: Medium, after: Medium) -> Crossing {
    match (before, after) {
        (Medium::Layer { material: m1, .. }, Medium::Layer { boundary: b2, material: m2 }) => {
            if m1 != m2 {
                Crossing::Interface { boundary: b2 }
            } else {
                Crossing::Stay
            }
        },
        (Medium::Layer { boundary: b1, .. }, _) => Crossing::Interface { boundary: b1 },
        (_, Medium::Layer { boundary: b2, .. }) => Crossing::Interface { boundary: b2 },
        _ => Crossing::Stay,
    }
}

/// Compares the medium before a step with the medium after it. Entering a
/// boundary's region (from open water or another material) reflects off the
/// entered boundary; leaving one for open water reflects off the one left.
pub fn crossing(before: &Medium, after: &Medium) -> (r: Crossing)
    ensures
        r == spec_crossing(*before, *after),
{
    match (before, after) {
        (Medium::Layer { material: m1, .. }, Medium::Layer { boundary: b2, material: m2 }) => {
            if *m1 != *m2 {
                Crossing::Interface { boundary: *b2 }
            } else {
                Crossing::Stay
            }
        },
        (Medium::Layer { boundary: b1, .. }, _) => Crossing::Interface { boundary: *b1 },
        (_, Medium::Layer { boundary: b2, .. }) => Crossing::Interface { boundary: *b2 },
        _ => Crossing::Stay,
    }
}

} // verus!
