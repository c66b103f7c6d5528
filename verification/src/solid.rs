//! Constructive-solid-geometry recipes.
//!
//! A [`Solid`] is an explicit expression tree over the operations of a mesh
//! kernel: primitive shapes at the leaves, transforms and boolean
//! combinations above them. The generators in this crate build such trees;
//! the host walks a tree bottom-up and replays each node on its kernel to
//! obtain a triangle mesh.
//!
//! Every scalar in a tree is a fixed-point integer in billionths: lengths
//! and offsets in billionths of a model unit, scale factors in billionths
//! of one, angles in billionths of a degree. The host divides by
//! [`NANO_UNIT`] to recover the kernel's floating-point arguments.

use vstd::prelude::*;

verus! {

/// One whole model unit (or degree, or a scale factor of one), expressed
/// in the fixed-point scale of a [`Solid`] tree.
pub const NANO_UNIT: i64 = 1_000_000_000;

/// A recipe for a solid shape, to be replayed on a mesh kernel.
///
/// Transform nodes follow the kernel's conventions: `Rotate` angles are in
/// (billionths of) degrees applied about the X, then Y, then Z axis;
/// `Mirror` reflects across the plane with the given normal and offset;
/// `Renormalize` recomputes face normals after a topology-changing step;
/// `Subdivide` splits every triangle into four, `levels` times.
#[derive(PartialEq, Eq, Debug)]
pub enum Solid {
    /// A sphere of the given radius, tessellated with `segments`
    /// longitudinal segments and `stacks` latitudinal stacks.
    Sphere { radius: i64, segments: usize, stacks: usize },
    /// A cylinder of the given radius and height with `segments` sides.
    Cylinder { radius: i64, height: i64, segments: usize },
    /// An axis-aligned box with the given edge lengths.
    Cuboid { x: i64, y: i64, z: i64 },
    /// A non-uniform scaling of the inner solid; factors are in billionths
    /// of one, so `NANO_UNIT` leaves an axis unchanged.
    Scale { body: Box<Solid>, x: i64, y: i64, z: i64 },
    /// A translation of the inner solid.
    Translate { body: Box<Solid>, x: i64, y: i64, z: i64 },
    /// A rotation of the inner solid, in billionths of a degree about the
    /// X, Y and Z axes in that order.
    Rotate { body: Box<Solid>, x: i64, y: i64, z: i64 },
    /// The union of the two solids.
    Union { left: Box<Solid>, right: Box<Solid> },
    /// The left solid with the right one subtracted.
    Difference { left: Box<Solid>, right: Box<Solid> },
    /// The convex hull of the inner solid.
    ConvexHull { body: Box<Solid> },
    /// The reflection of the inner solid across the plane with normal
    /// `(nx, ny, nz)` and the given offset from the origin.
    Mirror { body: Box<Solid>, nx: i64, ny: i64, nz: i64, offset: i64 },
    /// The inner solid with its face normals recomputed.
    Renormalize { body: Box<Solid> },
    /// The inner solid with every triangle split into four, `levels` times.
    Subdivide { body: Box<Solid>, levels: u32 },
}

/// Pitch of the final reorientation, in billionths of a degree: the
/// recipes are authored with Z up, the consuming renderer wants Y up.
pub const UPRIGHT_PITCH_NANO: i64 = -90_000_000_000;

/// Turn of the final reorientation, in billionths of a degree.
pub const UPRIGHT_TURN_NANO: i64 = 180_000_000_000;

/// The fixed axis realignment applied as the very last step of every
/// recipe, after all shape-defining transforms: a quarter turn about X and
/// a half turn about Z-authored-up, taking the authoring frame (Z up) to
/// the rendering frame (Y up).
pub open spec fn upright(s: Solid) -> Solid {
    Solid::Rotate { body: Box::new(s), x: UPRIGHT_PITCH_NANO, y: UPRIGHT_TURN_NANO, z: 0 }
}

/// The reflection of a solid across the lateral symmetry plane (the plane
/// through the origin with normal along Y).
pub open spec fn mirrored_y(s: Solid) -> Solid {
    Solid::Mirror { body: Box::new(s), nx: 0, ny: NANO_UNIT, nz: 0, offset: 0 }
}

/// Well-formedness of a recipe: every shape that contributes material is a
/// non-degenerate primitive, scale factors and mirror planes are
/// non-degenerate, and tessellation counts are high enough for the kernel
/// to produce at least one triangle per primitive.
///
/// The right operand of a `Difference` is deliberately unconstrained: a
/// degenerate subtrahend removes nothing and cannot empty the result.
pub open spec fn wf(s: Solid) -> bool
    decreases s,
{
    match s {
        Solid::Sphere { radius, segments, stacks } => radius > 0 && segments >= 3 && stacks >= 2,
        Solid::Cylinder { radius, height, segments } => radius > 0 && height > 0 && segments >= 3,
        Solid::Cuboid { x, y, z } => x > 0 && y > 0 && z > 0,
        Solid::Scale { body, x, y, z } => x > 0 && y > 0 && z > 0 && wf(*body),
        Solid::Translate { body, .. } => wf(*body),
        Solid::Rotate { body, .. } => wf(*body),
        Solid::Union { left, right } => wf(*left) && wf(*right),
        Solid::Difference { left, .. } => wf(*left),
        Solid::ConvexHull { body } => wf(*body),
        Solid::Mirror { body, nx, ny, nz, .. } => (nx != 0 || ny != 0 || nz != 0) && wf(*body),
        Solid::Renormalize { body } => wf(*body),
        Solid::Subdivide { body, .. } => wf(*body),
    }
}

/// Whether the recipe `t` occurs somewhere inside the recipe `s`
/// (including `s` itself).
pub open spec fn contains(s: Solid, t: Solid) -> bool
    decreases s,
{
    s == t || match s {
        Solid::Sphere { .. } => false,
        Solid::Cylinder { .. } => false,
        Solid::Cuboid { .. } => false,
        Solid::Scale { body, .. } => contains(*body, t),
        Solid::Translate { body, .. } => contains(*body, t),
        Solid::Rotate { body, .. } => contains(*body, t),
        Solid::Union { left, right } => contains(*left, t) || contains(*right, t),
        Solid::Difference { left, right } => contains(*left, t) || contains(*right, t),
        Solid::ConvexHull { body } => contains(*body, t),
        Solid::Mirror { body, .. } => contains(*body, t),
        Solid::Renormalize { body } => contains(*body, t),
        Solid::Subdivide { body, .. } => contains(*body, t),
    }
}

/// Containment is transitive: whatever occurs inside a part of a recipe
/// occurs inside the whole recipe.
pub proof fn lemma_contains_trans(a: Solid, b: Solid, c: Solid)
    requires
        contains(a, b),
        contains(b, c),
    ensures
        contains(a, c),
    decreases a,
{
    if a == b {
    } else {
        match a {
            Solid::Sphere { .. } => {},
            Solid::Cylinder { .. } => {},
            Solid::Cuboid { .. } => {},
            Solid::Scale { body, .. } => lemma_contains_trans(*body, b, c),
            Solid::Translate { body, .. } => lemma_contains_trans(*body, b, c),
            Solid::Rotate { body, .. } => lemma_contains_trans(*body, b, c),
            Solid::Union { left, right } => {
                if contains(*left, b) {
                    lemma_contains_trans(*left, b, c);
                } else {
                    lemma_contains_trans(*right, b, c);
                }
            },
            Solid::Difference { left, right } => {
                if contains(*left, b) {
                    lemma_contains_trans(*left, b, c);
                } else {
                    lemma_contains_trans(*right, b, c);
                }
            },
            Solid::ConvexHull { body } => lemma_contains_trans(*body, b, c),
            Solid::Mirror { body, .. } => lemma_contains_trans(*body, b, c),
            Solid::Renormalize { body } => lemma_contains_trans(*body, b, c),
            Solid::Subdivide { body, .. } => lemma_contains_trans(*body, b, c),
        }
    }
}

/// The number of primitive shapes (spheres, cylinders, cuboids) in the
/// recipe. A well-formed recipe with at least one primitive describes a
/// non-empty solid.
pub open spec fn primitive_count(s: Solid) -> nat
    decreases s,
{
    match s {
        Solid::Sphere { .. } => 1,
        Solid::Cylinder { .. } => 1,
        Solid::Cuboid { .. } => 1,
        Solid::Scale { body, .. } => primitive_count(*body),
        Solid::Translate { body, .. } => primitive_count(*body),
        Solid::Rotate { body, .. } => primitive_count(*body),
        Solid::Union { left, right } => primitive_count(*left) + primitive_count(*right),
        Solid::Difference { left, right } => primitive_count(*left) + primitive_count(*right),
        Solid::ConvexHull { body } => primitive_count(*body),
        Solid::Mirror { body, .. } => primitive_count(*body),
        Solid::Renormalize { body } => primitive_count(*body),
        Solid::Subdivide { body, .. } => primitive_count(*body),
    }
}

} // verus!
