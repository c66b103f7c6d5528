//! The laws of the generators, stated and proved once and for all
//! records, not just for tested instances.

use vstd::prelude::*;

use crate::body::BASE_FLAT_DISABLED_MILLI;
use crate::body::body_plan;
use crate::body::bottom_solid;
use crate::body::chest_solid;
use crate::body::cut_box_solid;
use crate::body::flattened_body;
use crate::body::neck_solid;
use crate::body::tail_solid;
use crate::body::trunk_solid;
use crate::head::beak_cylinder;
use crate::head::beak_skeleton;
use crate::head::eye_solid;
use crate::head::head_plan;
use crate::head::head_with_eyes;
use crate::head::hulled_head;
use crate::head::posed_head;
use crate::head::skull_solid;
use crate::params::BirdGenInputs;
use crate::params::in_documented_ranges;
use crate::solid::Solid;
use crate::solid::contains;
use crate::solid::lemma_contains_trans;
use crate::solid::mirrored_y;
use crate::solid::primitive_count;
use crate::solid::upright;
use crate::solid::wf;
use crate::units::EPSILON_NANO;
use crate::units::spec_beak_tip_radius;
use crate::units::spec_cut_height;
use crate::units::spec_stretch_ratio;
use vstd::arithmetic::div_mod::lemma_div_non_zero;
use vstd::arithmetic::div_mod::lemma_div_nonincreasing;

verus! {

/// The chest stretch factor is positive for positive operands within the
/// machine bound, so the chest sphere is never flattened away.
proof fn lemma_stretch_ratio_positive(belly_length: i64, belly_size: i64)
    requires
        1 <= belly_length <= 100_000_000,
        1 <= belly_size <= 100_000_000,
    ensures
        spec_stretch_ratio(belly_length, belly_size) > 0,
{
    let num: int = belly_length * 1_000_000_000;
    lemma_div_non_zero(num, belly_size as int);
    lemma_div_nonincreasing(num, belly_size as int);
}

/// For every record within the documented ranges, both recipes are well
/// formed and contain at least one primitive: every primitive that
/// contributes material has positive dimensions and enough tessellation
/// for the kernel to emit at least one triangle, so realizing either
/// recipe yields a non-empty mesh.
pub proof fn lemma_plans_well_formed(p: BirdGenInputs)
    requires
        in_documented_ranges(p),
    ensures
        wf(head_plan(p)),
        wf(body_plan(p)),
        primitive_count(head_plan(p)) >= 1,
        primitive_count(body_plan(p)) >= 1,
{
    reveal_with_fuel(wf, 14);
    reveal_with_fuel(primitive_count, 14);
    assert(wf(skull_solid(p)));
    assert(wf(beak_cylinder(p)));
    assert(wf(beak_skeleton(p)));
    assert(wf(hulled_head(p)));
    if p.eye_size > 0 {
        assert(wf(eye_solid(p)));
        assert(wf(mirrored_y(eye_solid(p))));
    }
    assert(wf(head_with_eyes(p)));
    assert(wf(posed_head(p)));
    assert(primitive_count(skull_solid(p)) == 1);
    assert(primitive_count(beak_skeleton(p)) == 2);
    assert(primitive_count(hulled_head(p)) == 2);
    assert(primitive_count(head_with_eyes(p)) >= 2);
    assert(primitive_count(posed_head(p)) >= 2);

    assert(wf(neck_solid(p)));
    lemma_stretch_ratio_positive(p.belly_length, p.belly_size);
    assert(wf(chest_solid(p)));
    assert(wf(bottom_solid(p)));
    assert(wf(tail_solid(p)));
    assert(wf(trunk_solid(p)));
    assert(wf(flattened_body(p)));
    assert(primitive_count(neck_solid(p)) == 1);
    assert(primitive_count(chest_solid(p)) == 1);
    assert(primitive_count(bottom_solid(p)) == 1);
    assert(primitive_count(tail_solid(p)) == 1);
    assert(primitive_count(trunk_solid(p)) == 4);
    assert(primitive_count(flattened_body(p)) >= 4);
}

/// Epsilon substitution: the head recipe always carries the beak-tip
/// cylinder, its radius and height are positive for every bounded record,
/// and when `beak_width` is zero (or negative) the radius is exactly the
/// epsilon thickness - a pointed but never degenerate tip.
pub proof fn lemma_beak_epsilon_substitution(p: BirdGenInputs)
    requires
        p.beak_width <= 100_000_000,
    ensures
        contains(head_plan(p), beak_cylinder(p)),
        beak_cylinder(p) matches Solid::Cylinder { radius, height, segments: _ } && radius > 0
            && height > 0,
        p.beak_width <= 0 ==> spec_beak_tip_radius(p.beak_width) == EPSILON_NANO,
{
    reveal_with_fuel(contains, 14);
    let tip = beak_cylinder(p);
    assert(contains(beak_skeleton(p), tip));
    assert(contains(hulled_head(p), beak_skeleton(p)));
    lemma_contains_trans(hulled_head(p), beak_skeleton(p), tip);
    assert(contains(head_with_eyes(p), hulled_head(p)));
    lemma_contains_trans(head_with_eyes(p), hulled_head(p), tip);
    assert(contains(posed_head(p), head_with_eyes(p)));
    lemma_contains_trans(posed_head(p), head_with_eyes(p), tip);
    assert(contains(head_plan(p), posed_head(p)));
    lemma_contains_trans(head_plan(p), posed_head(p), tip);
}

/// Eye symmetry: when `eye_size` is positive, the two eyes in the head
/// recipe are one and the same solid, attached once mirrored across the
/// lateral symmetry plane and once directly, so the finished head's eyes
/// are mirror images of each other by construction.
pub proof fn lemma_eye_symmetry(p: BirdGenInputs)
    requires
        p.eye_size > 0,
    ensures
        head_with_eyes(p) == (Solid::Renormalize {
            body: Box::new(
                Solid::Union {
                    left: Box::new(
                        Solid::Renormalize {
                            body: Box::new(
                                Solid::Union {
                                    left: Box::new(hulled_head(p)),
                                    right: Box::new(mirrored_y(eye_solid(p))),
                                },
                            ),
                        },
                    ),
                    right: Box::new(eye_solid(p)),
                },
            ),
        }),
        contains(head_plan(p), head_with_eyes(p)),
{
    reveal_with_fuel(contains, 14);
    assert(contains(posed_head(p), head_with_eyes(p)));
    assert(contains(head_plan(p), posed_head(p)));
    lemma_contains_trans(head_plan(p), posed_head(p), head_with_eyes(p));
}

/// The base-flat disable sentinel: at or below the sentinel the body
/// recipe is exactly the reoriented trunk, as if the flattening step did
/// not exist; above it the recipe is the trunk with the cut box
/// subtracted, the box sitting at the documented cut height
/// `belly_size * (-1.5 + base_flat / 200)`.
pub proof fn lemma_base_flat_sentinel(p: BirdGenInputs)
    ensures
        p.base_flat <= BASE_FLAT_DISABLED_MILLI ==> body_plan(p) == upright(trunk_solid(p)),
        p.base_flat > BASE_FLAT_DISABLED_MILLI ==> body_plan(p) == upright(
            Solid::Renormalize {
                body: Box::new(
                    Solid::Difference {
                        left: Box::new(trunk_solid(p)),
                        right: Box::new(cut_box_solid(p)),
                    },
                ),
            },
        ),
        cut_box_solid(p) matches Solid::Translate { body: _, x: 0, y: 0, z } && z
            == spec_cut_height(p.belly_size, p.base_flat),
{
}

/// The generators are independent: two records that differ only in
/// `tail_pitch` - a body parameter - yield exactly the same head recipe.
pub proof fn lemma_head_ignores_tail_pitch(p1: BirdGenInputs, p2: BirdGenInputs)
    requires
        p2 == (BirdGenInputs { tail_pitch: p2.tail_pitch, ..p1 }),
    ensures
        head_plan(p1) == head_plan(p2),
{
    assert(skull_solid(p1) == skull_solid(p2));
    assert(beak_cylinder(p1) == beak_cylinder(p2));
    assert(beak_skeleton(p1) == beak_skeleton(p2));
    assert(hulled_head(p1) == hulled_head(p2));
    assert(eye_solid(p1) == eye_solid(p2));
    assert(head_with_eyes(p1) == head_with_eyes(p2));
    assert(posed_head(p1) == posed_head(p2));
}

} // verus!
