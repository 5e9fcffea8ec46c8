//! The live-ray arena: after each step the surviving rays keep their order,
//! and rays spawned by reflection join at the end.
use vstd::prelude::*;

verus! {

/// What became of one ray during a step.
#[derive(Debug)]
pub enum RayFate<T> {
    /// The ray left the domain or faded below the kill threshold.
    Removed,
    /// The ray moved on.
    Advanced(T),
    /// The ray moved on and spawned a reflected sibling.
    Split { transmitted: T, reflected: T },
}

/// The simulated domain, its limits given as order keys (integers that order
/// as the limits do; see `crate::medium::BoundaryLevel`).
#[derive(Clone, Copy, Debug, PartialEq, Eq, Structural)]
pub struct Domain {
    pub x_min: i64,
    pub x_max: i64,
    pub height_min: i64,
    pub height_max: i64,
}

/// A ray's state as the removal rule reads it: order keys of its position and
/// intensity, `None` where the value is not finite.
#[derive(Clone, Copy, Debug, PartialEq, Eq, Structural)]
pub struct RayProbe {
    pub x: Option<i64>,
    pub height: Option<i64>,
    pub intensity: Option<i64>,
}

pub open spec fn spec_must_remove(ray: RayProbe, domain: Domain, threshold: i64) -> bool {
    match (ray.x, ray.height, ray.intensity) {
        (Some(x), Some(h), Some(i)) => {
            ||| x < domain.x_min
            ||| x > domain.x_max
            ||| h < domain.height_min
            ||| h > domain.height_max
            ||| i < threshold
        },
        _ => true,
    }
}

/// Whether a ray leaves the arena before its next step: it has left the
/// domain, its position or intensity is not finite, or its intensity is below
/// the kill threshold.
pub fn must_remove(ray: &RayProbe, domain: &Domain, threshold: i64) -> (r: bool)
    ensures
        r == spec_must_remove(*ray, *domain, threshold),
{
    match (ray.x, ray.height, ray.intensity) {
        (Some(x), Some(h), Some(i)) => x < domain.x_min || x > domain.x_max || h
            < domain.height_min || h > domain.height_max || i < threshold,
        _ => true,
    }
}

/// The rays that carry on, in the order they had.
pub open spec fn survivors<T>(fates: Seq<RayFate<T>>) -> Seq<T>
    decreases fates.len(),
{
    if fates.len() == 0 {
        Seq::empty()
    } else {
        let rest = survivors(fates.drop_last());
        match fates.last() {
            RayFate::Removed => rest,
            RayFate::Advanced(t) => rest.push(t),
            RayFate::Split { transmitted, .. } => rest.push(transmitted),
        }
    }
}

/// The reflected rays spawned during the step, in the order of their parents.
pub open spec fn spawned<T>(fates: Seq<RayFate<T>>) -> Seq<T>
    decreases fates.len(),
{
    if fates.len() == 0 {
        Seq::empty()
    } else {
        let rest = spawned(fates.drop_last());
        match fates.last() {
            RayFate::Split { reflected, .. } => rest.push(reflected),
            _ => rest,
        }
    }
}

/// The live rays after a step: the survivors in the order they had, then the
/// reflected rays, which are first advanced at the following step.
pub fn next_generation<T: Copy>(fates: &Vec<RayFate<T>>) -> (r: Vec<T>)
    ensures
        r@ == survivors(fates@) + spawned(fates@),
{
    let mut kept: Vec<T> = Vec::new();
    let mut born: Vec<T> = Vec::new();
    let mut i: usize = 0;
    while i < fates.len()
        invariant
            i <= fates.len(),
            kept@ == survivors(fates@.take(i as int)),
            born@ == spawned(fates@.take(i as int)),
        decreases fates.len() - i,
    {
        assert(fates@.take(i as int + 1).drop_last() == fates@.take(i as int));
        match &fates[i] {
            RayFate::Removed => {},
            RayFate::Advanced(t) => {
                kept.push(*t);
            },
            RayFate::Split { transmitted, reflected } => {
                kept.push(*transmitted);
                born.push(*reflected);
            },
        }
        i = i + 1;
    }
    assert(fates@.take(fates@.len() as int) == fates@);
    kept.append(&mut born);
    kept
}

} // verus!
