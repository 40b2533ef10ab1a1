use vstd::prelude::*;

verus! {

/// Fixed-point units per pixel: positions and velocities are counted in these.
pub const SUBPIXELS: i64 = 1000;

/// An entity's identity: a dense index, issued once and never reused.
#[derive(Clone, Copy, Debug, PartialEq, Eq, Structural)]
pub struct EntityId(pub usize);

/// World-space coordinates, in subpixels.
#[derive(Clone, Copy, Debug, PartialEq, Eq, Structural)]
pub struct Position {
    pub x: i64,
    pub y: i64,
}

/// Per-frame displacement, in subpixels.
#[derive(Clone, Copy, Debug, PartialEq, Eq, Structural)]
pub struct Velocity {
    pub dx: i64,
    pub dy: i64,
}

impl Velocity {
    /// Each component can be negated without leaving `i64`.
    pub open spec fn wf(&self) -> bool {
        self.dx != i64::MIN && self.dy != i64::MIN
    }
}

/// A reference, by name, to an entry of the asset table.
#[derive(Clone, Debug)]
pub struct Renderable {
    pub resource_name: String,
}

/// Which attribute kinds an entity carries (or a system requires).
#[derive(Clone, Copy, Debug, PartialEq, Eq, Structural)]
pub struct KindSet {
    pub position: bool,
    pub velocity: bool,
    pub renderable: bool,
}

impl KindSet {
    /// Every kind in `self` is in `other`.
    pub open spec fn subset_of(&self, other: KindSet) -> bool {
        (self.position ==> other.position) && (self.velocity ==> other.velocity) && (
        self.renderable ==> other.renderable)
    }

    /// The empty set of kinds.
    pub fn none() -> (r: KindSet)
        ensures
            !r.position && !r.velocity && !r.renderable,
    {
        KindSet { position: false, velocity: false, renderable: false }
    }

    pub fn is_subset_of(&self, other: &KindSet) -> (r: bool)
        ensures
            r == self.subset_of(*other),
    {
        (!self.position || other.position) && (!self.velocity || other.velocity) && (
        !self.renderable || other.renderable)
    }
}

/// An entity was asked for an attribute that it does not carry.
#[derive(Clone, Copy, Debug, PartialEq, Eq, Structural)]
pub struct MissingAttribute {
    pub entity: EntityId,
}

} // verus!
