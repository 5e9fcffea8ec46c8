//! Kinds of sound source.
use vstd::prelude::*;

verus! {

/// The geometry of a source's fan of rays.
#[derive(Clone, Copy, Debug, PartialEq, Eq, Structural)]
pub enum SourceType {
    /// All rays leave one point, evenly spaced over the angle range.
    Point,
    /// A line source; it emits no rays yet.
    Line,
}

impl SourceType {
    /// How many rays a source of this type emits when it asks for
    /// `number_of_rays`: all of them from a point, none from a line.
    pub fn emitted_rays(&self, number_of_rays: usize) -> (r: usize)
        ensures
            r == match self {
                SourceType::Point => number_of_rays,
                SourceType::Line => 0,
            },
    {
        match self {
            SourceType::Point => number_of_rays,
            SourceType::Line => 0,
        }
    }
}

} // verus!
