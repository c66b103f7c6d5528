//! The body generator: neck, chest, bottom and tail, with an optional
//! flat-base cut.
//!
//! The body is a chained hull: each pair of adjacent anatomical stops is
//! convex-hulled together and the segments are accumulated by union, which
//! lofts a smooth S-curved trunk through differently sized spheres without
//! a true skinning primitive. Hulling each adjacent pair separately - not
//! all stops at once - is what preserves the S-curve, so the order of
//! operations below is part of the design. When `base_flat` is above its
//! disable sentinel, an oversized box is subtracted to pre-truncate the
//! shape for flat-base printing.

use vstd::prelude::*;

use crate::params::BirdGenInputs;
use crate::params::inputs_bounded;
use crate::solid::NANO_UNIT;
use crate::solid::Solid;
use crate::solid::UPRIGHT_PITCH_NANO;
use crate::solid::UPRIGHT_TURN_NANO;
use crate::solid::upright;
use crate::units::BOTTOM_SEGMENTS;
use crate::units::BOTTOM_STACKS;
use crate::units::CHEST_SEGMENTS;
use crate::units::CHEST_STACKS;
use crate::units::EPSILON_NANO;
use crate::units::NECK_SEGMENTS;
use crate::units::NECK_STACKS;
use crate::units::TAIL_SEGMENTS;
use crate::units::cut_extent;
use crate::units::cut_height;
use crate::units::half_unit_nano;
use crate::units::milli_to_nano;
use crate::units::neg_milli_to_nano;
use crate::units::percent_to_nano;
use crate::units::rear_reach;
use crate::units::spec_cut_extent;
use crate::units::spec_cut_height;
use crate::units::spec_half_unit_nano;
use crate::units::spec_milli_to_nano;
use crate::units::spec_neg_milli_to_nano;
use crate::units::spec_percent_to_nano;
use crate::units::spec_rear_reach;
use crate::units::spec_stretch_ratio;
use crate::units::stretch_ratio;

verus! {

/// The `base_flat` value, in thousandths, at and below which the
/// flat-base cut is disabled.
pub const BASE_FLAT_DISABLED_MILLI: i64 = -100_000;

/// The neck: a sphere sized like the skull, at the same offset used for
/// the head pose, so the neck meets the head's attachment point whatever
/// the head's pitch and yaw.
pub open spec fn neck_solid(p: BirdGenInputs) -> Solid {
    Solid::Translate {
        body: Box::new(
            Solid::Sphere {
                radius: spec_half_unit_nano(p.head_size),
                segments: NECK_SEGMENTS,
                stacks: NECK_STACKS,
            },
        ),
        x: 0,
        y: spec_milli_to_nano(p.head_lateral_offset),
        z: spec_milli_to_nano(p.head_level),
    }
}

/// The chest: a belly-sized sphere stretched along the body axis by
/// `belly_length / belly_size`, fattened by `belly_fat`, and pushed down
/// the body axis by `head_to_belly`.
pub open spec fn chest_solid(p: BirdGenInputs) -> Solid {
    Solid::Translate {
        body: Box::new(
            Solid::Scale {
                body: Box::new(
                    Solid::Sphere {
                        radius: spec_half_unit_nano(p.belly_size),
                        segments: CHEST_SEGMENTS,
                        stacks: CHEST_STACKS,
                    },
                ),
                x: spec_stretch_ratio(p.belly_length, p.belly_size),
                y: spec_percent_to_nano(p.belly_fat),
                z: NANO_UNIT,
            },
        ),
        x: spec_milli_to_nano(p.head_to_belly),
        y: 0,
        z: 0,
    }
}

/// The bottom: a sphere at `head_to_belly + belly_to_bottom` along the
/// body axis.
pub open spec fn bottom_solid(p: BirdGenInputs) -> Solid {
    Solid::Translate {
        body: Box::new(
            Solid::Sphere {
                radius: spec_half_unit_nano(p.bottom_size),
                segments: BOTTOM_SEGMENTS,
                stacks: BOTTOM_STACKS,
            },
        ),
        x: spec_rear_reach(p.head_to_belly, p.belly_to_bottom),
        y: 0,
        z: 0,
    }
}

/// The tail: a cylinder of radius `tail_width` on the epsilon-thin base,
/// flattened by `tail_roundness`, pushed out by `tail_length`, swung by
/// pitch and yaw, and carried to the bottom's position.
pub open spec fn tail_solid(p: BirdGenInputs) -> Solid {
    Solid::Translate {
        body: Box::new(
            Solid::Rotate {
                body: Box::new(
                    Solid::Translate {
                        body: Box::new(
                            Solid::Scale {
                                body: Box::new(
                                    Solid::Cylinder {
                                        radius: spec_milli_to_nano(p.tail_width),
                                        height: EPSILON_NANO,
                                        segments: TAIL_SEGMENTS,
                                    },
                                ),
                                x: spec_percent_to_nano(p.tail_roundness),
                                y: NANO_UNIT,
                                z: NANO_UNIT,
                            },
                        ),
                        x: spec_milli_to_nano(p.tail_length),
                        y: 0,
                        z: 0,
                    },
                ),
                x: 0,
                y: spec_neg_milli_to_nano(p.tail_pitch),
                z: spec_milli_to_nano(p.tail_yaw),
            },
        ),
        x: spec_rear_reach(p.head_to_belly, p.belly_to_bottom),
        y: 0,
        z: 0,
    }
}

/// The whole uncut body: the neck-to-chest loft, then the loft of that
/// with the bottom, then the loft of that with the tail - three chained
/// hull segments - renormalized once all segments are combined.
pub open spec fn trunk_solid(p: BirdGenInputs) -> Solid {
    Solid::Renormalize {
        body: Box::new(
            Solid::ConvexHull {
                body: Box::new(
                    Solid::Union {
                        left: Box::new(
                            Solid::ConvexHull {
                                body: Box::new(
                                    Solid::Union {
                                        left: Box::new(
                                            Solid::ConvexHull {
                                                body: Box::new(
                                                    Solid::Union {
                                                        left: Box::new(neck_solid(p)),
                                                        right: Box::new(chest_solid(p)),
                                                    },
                                                ),
                                            },
                                        ),
                                        right: Box::new(bottom_solid(p)),
                                    },
                                ),
                            },
                        ),
                        right: Box::new(tail_solid(p)),
                    },
                ),
            },
        ),
    }
}

/// The oversized box subtracted for the flat-base cut: ten times the
/// nose-to-tail length in both horizontal dimensions, one belly size
/// thick, placed at the computed cut height.
pub open spec fn cut_box_solid(p: BirdGenInputs) -> Solid {
    Solid::Translate {
        body: Box::new(
            Solid::Cuboid {
                x: spec_cut_extent(
                    p.beak_length,
                    p.head_to_belly,
                    p.belly_to_bottom,
                    p.tail_length,
                ),
                y: spec_cut_extent(
                    p.beak_length,
                    p.head_to_belly,
                    p.belly_to_bottom,
                    p.tail_length,
                ),
                z: spec_milli_to_nano(p.belly_size),
            },
        ),
        x: 0,
        y: 0,
        z: spec_cut_height(p.belly_size, p.base_flat),
    }
}

/// The body after the optional flat-base cut: when `base_flat` is above
/// the disable sentinel the cut box is subtracted and normals are
/// recomputed; at or below the sentinel the trunk passes through exactly
/// as if the flattening step did not exist.
pub open spec fn flattened_body(p: BirdGenInputs) -> Solid {
    if p.base_flat > BASE_FLAT_DISABLED_MILLI {
        Solid::Renormalize {
            body: Box::new(
                Solid::Difference {
                    left: Box::new(trunk_solid(p)),
                    right: Box::new(cut_box_solid(p)),
                },
            ),
        }
    } else {
        trunk_solid(p)
    }
}

/// The finished body recipe: the optionally flattened trunk, reoriented
/// for the renderer as the very last step.
pub open spec fn body_plan(p: BirdGenInputs) -> Solid {
    upright(flattened_body(p))
}

/// Builds the body recipe for the given parameter record.
///
/// The result is exactly [`body_plan`] of the record: a pure function of
/// the input, so two calls on equal records yield equal recipes.
pub fn generate_bird_body_mesh(input: &BirdGenInputs) -> (r: Solid)
    requires
        inputs_bounded(*input),
    ensures
        r == body_plan(*input),
{
    let neck = Solid::Translate {
        body: Box::new(
            Solid::Sphere {
                radius: half_unit_nano(input.head_size),
                segments: NECK_SEGMENTS,
                stacks: NECK_STACKS,
            },
        ),
        x: 0,
        y: milli_to_nano(input.head_lateral_offset),
        z: milli_to_nano(input.head_level),
    };
    assert(neck == neck_solid(*input));

    let chest = Solid::Translate {
        body: Box::new(
            Solid::Scale {
                body: Box::new(
                    Solid::Sphere {
                        radius: half_unit_nano(input.belly_size),
                        segments: CHEST_SEGMENTS,
                        stacks: CHEST_STACKS,
                    },
                ),
                x: stretch_ratio(input.belly_length, input.belly_size),
                y: percent_to_nano(input.belly_fat),
                z: NANO_UNIT,
            },
        ),
        x: milli_to_nano(input.head_to_belly),
        y: 0,
        z: 0,
    };
    assert(chest == chest_solid(*input));

    let bottom = Solid::Translate {
        body: Box::new(
            Solid::Sphere {
                radius: half_unit_nano(input.bottom_size),
                segments: BOTTOM_SEGMENTS,
                stacks: BOTTOM_STACKS,
            },
        ),
        x: rear_reach(input.head_to_belly, input.belly_to_bottom),
        y: 0,
        z: 0,
    };
    assert(bottom == bottom_solid(*input));

    let tail = Solid::Translate {
        body: Box::new(
            Solid::Rotate {
                body: Box::new(
                    Solid::Translate {
                        body: Box::new(
                            Solid::Scale {
                                body: Box::new(
                                    Solid::Cylinder {
                                        radius: milli_to_nano(input.tail_width),
                                        height: EPSILON_NANO,
                                        segments: TAIL_SEGMENTS,
                                    },
                                ),
                                x: percent_to_nano(input.tail_roundness),
                                y: NANO_UNIT,
                                z: NANO_UNIT,
                            },
                        ),
                        x: milli_to_nano(input.tail_length),
                        y: 0,
                        z: 0,
                    },
                ),
                x: 0,
                y: neg_milli_to_nano(input.tail_pitch),
                z: milli_to_nano(input.tail_yaw),
            },
        ),
        x: rear_reach(input.head_to_belly, input.belly_to_bottom),
        y: 0,
        z: 0,
    };
    assert(tail == tail_solid(*input));

    let trunk = Solid::Renormalize {
        body: Box::new(
            Solid::ConvexHull {
                body: Box::new(
                    Solid::Union {
                        left: Box::new(
                            Solid::ConvexHull {
                                body: Box::new(
                                    Solid::Union {
                                        left: Box::new(
                                            Solid::ConvexHull {
                                                body: Box::new(
                                                    Solid::Union {
                                                        left: Box::new(neck),
                                                        right: Box::new(chest),
                                                    },
                                                ),
                                            },
                                        ),
                                        right: Box::new(bottom),
                                    },
                                ),
                            },
                        ),
                        right: Box::new(tail),
                    },
                ),
            },
        ),
    };
    assert(trunk == trunk_solid(*input));

    let flattened = if input.base_flat > BASE_FLAT_DISABLED_MILLI {
        let spread = cut_extent(
            input.beak_length,
            input.head_to_belly,
            input.belly_to_bottom,
            input.tail_length,
        );
        let cut_box = Solid::Translate {
            body: Box::new(
                Solid::Cuboid { x: spread, y: spread, z: milli_to_nano(input.belly_size) },
            ),
            x: 0,
            y: 0,
            z: cut_height(input.belly_size, input.base_flat),
        };
        assert(cut_box == cut_box_solid(*input));
        Solid::Renormalize {
            body: Box::new(
                Solid::Difference { left: Box::new(trunk), right: Box::new(cut_box) },
            ),
        }
    } else {
        trunk
    };
    assert(flattened == flattened_body(*input));

    Solid::Rotate {
        body: Box::new(flattened),
        x: UPRIGHT_PITCH_NANO,
        y: UPRIGHT_TURN_NANO,
        z: 0,
    }
}

} // verus!
