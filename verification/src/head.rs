//! The head generator: skull, beak and eyes.
//!
//! The construction is a fixed, order-dependent sequence. A coarse
//! beak-tip cylinder is unioned with the skull sphere and the whole is
//! convex-hulled into one tapered silhouette; the eyes, when present, are
//! a single squashed sphere unioned on once directly and once mirrored
//! across the symmetry plane; the posed head is then inflated slightly to
//! compensate for hull shrinkage, subdivided for smooth shading, and
//! reoriented for the renderer. Normals are recomputed after every union,
//! hull and difference, which the kernel needs for stable results.

use vstd::prelude::*;

use crate::params::BirdGenInputs;
use crate::params::inputs_bounded;
use crate::solid::NANO_UNIT;
use crate::solid::Solid;
use crate::solid::UPRIGHT_PITCH_NANO;
use crate::solid::UPRIGHT_TURN_NANO;
use crate::solid::mirrored_y;
use crate::solid::upright;
use crate::units::BEAK_SEGMENTS;
use crate::units::EPSILON_NANO;
use crate::units::EYE_SEGMENTS;
use crate::units::EYE_STACKS;
use crate::units::SKULL_SEGMENTS;
use crate::units::SPHERE_STACKS;
use crate::units::beak_reach;
use crate::units::beak_tip_radius;
use crate::units::eye_reach;
use crate::units::half_unit_nano;
use crate::units::milli_to_nano;
use crate::units::percent_to_nano;
use crate::units::spec_beak_reach;
use crate::units::spec_beak_tip_radius;
use crate::units::spec_eye_reach;
use crate::units::spec_half_unit_nano;
use crate::units::spec_milli_to_nano;
use crate::units::spec_percent_to_nano;

verus! {

/// Tilt of the beak cylinder about the Y axis, in billionths of a degree.
pub const BEAK_TILT_NANO: i64 = 15_000_000_000;

/// Fixed eye orientation about the X axis, in billionths of a degree.
pub const EYE_TILT_X_NANO: i64 = 50_000_000_000;

/// Fixed eye orientation about the Y axis, in billionths of a degree.
pub const EYE_TILT_Y_NANO: i64 = -40_000_000_000;

/// The factor squashing an eye sphere to half thickness, in billionths.
pub const EYE_SQUASH_NANO: i64 = 500_000_000;

/// The uniform cosmetic inflation applied to the posed head, in
/// billionths: 1.1, compensating for convex-hull shrinkage of curved
/// surfaces.
pub const HULL_COMPENSATION_NANO: i64 = 1_100_000_000;

/// How many rounds of triangle subdivision smooth the finished head.
pub const SMOOTHING_LEVELS: u32 = 1;

/// The skull: a sphere of radius `head_size / 2` at full detail.
pub open spec fn skull_solid(p: BirdGenInputs) -> Solid {
    Solid::Sphere {
        radius: spec_half_unit_nano(p.head_size),
        segments: SKULL_SEGMENTS,
        stacks: SPHERE_STACKS,
    }
}

/// The beak-tip cylinder before placement: radius `beak_width` with the
/// epsilon substitution for a pointed tip, epsilon height, coarse sides.
pub open spec fn beak_cylinder(p: BirdGenInputs) -> Solid {
    Solid::Cylinder {
        radius: spec_beak_tip_radius(p.beak_width),
        height: EPSILON_NANO,
        segments: BEAK_SEGMENTS,
    }
}

/// The beak skeleton: the tip cylinder flattened by `beak_roundness`,
/// pushed out past the skull radius, tilted, and unioned with the skull;
/// normals recomputed after the union.
pub open spec fn beak_skeleton(p: BirdGenInputs) -> Solid {
    Solid::Renormalize {
        body: Box::new(
            Solid::Union {
                left: Box::new(
                    Solid::Rotate {
                        body: Box::new(
                            Solid::Translate {
                                body: Box::new(
                                    Solid::Scale {
                                        body: Box::new(beak_cylinder(p)),
                                        x: spec_percent_to_nano(p.beak_roundness),
                                        y: NANO_UNIT,
                                        z: NANO_UNIT,
                                    },
                                ),
                                x: spec_beak_reach(p.beak_length, p.head_size),
                                y: 0,
                                z: 0,
                            },
                        ),
                        x: 0,
                        y: BEAK_TILT_NANO,
                        z: 0,
                    },
                ),
                right: Box::new(skull_solid(p)),
            },
        ),
    }
}

/// The hulled head: the convex hull of the beak skeleton, tapered in Y
/// and Z by `beak_size`; normals recomputed. The skull is not kept
/// separately once hulled.
pub open spec fn hulled_head(p: BirdGenInputs) -> Solid {
    Solid::Renormalize {
        body: Box::new(
            Solid::Scale {
                body: Box::new(Solid::ConvexHull { body: Box::new(beak_skeleton(p)) }),
                x: NANO_UNIT,
                y: spec_percent_to_nano(p.beak_size),
                z: spec_percent_to_nano(p.beak_size),
            },
        ),
    }
}

/// One eye before mirroring: a half-detail sphere of radius
/// `eye_size / 2`, squashed to half thickness, pushed out to sit embedded
/// in the skull, and turned to its fixed orientation.
pub open spec fn eye_solid(p: BirdGenInputs) -> Solid {
    Solid::Rotate {
        body: Box::new(
            Solid::Translate {
                body: Box::new(
                    Solid::Scale {
                        body: Box::new(
                            Solid::Sphere {
                                radius: spec_half_unit_nano(p.eye_size),
                                segments: EYE_SEGMENTS,
                                stacks: EYE_STACKS,
                            },
                        ),
                        x: NANO_UNIT,
                        y: NANO_UNIT,
                        z: EYE_SQUASH_NANO,
                    },
                ),
                x: 0,
                y: 0,
                z: spec_eye_reach(p.head_size, p.eye_size),
            },
        ),
        x: EYE_TILT_X_NANO,
        y: EYE_TILT_Y_NANO,
        z: 0,
    }
}

/// The head with its eyes attached, when `eye_size` is positive: the same
/// eye solid is unioned on twice, first mirrored across the symmetry
/// plane and then directly, with normals recomputed after each union.
/// With no eyes the hulled head passes through unchanged.
pub open spec fn head_with_eyes(p: BirdGenInputs) -> Solid {
    if p.eye_size > 0 {
        Solid::Renormalize {
            body: Box::new(
                Solid::Union {
                    left: Box::new(
                        Solid::Renormalize {
                            body: Box::new(
                                Solid::Union {
                                    left: Box::new(hulled_head(p)),
                                    right: Box::new(mirrored_y(eye_solid(p))),
                                },
                            ),
                        },
                    ),
                    right: Box::new(eye_solid(p)),
                },
            ),
        }
    } else {
        hulled_head(p)
    }
}

/// The posed head: rotated by pitch and yaw, lifted to its level and
/// lateral offset, inflated by the hull compensation factor, and
/// renormalized.
pub open spec fn posed_head(p: BirdGenInputs) -> Solid {
    Solid::Renormalize {
        body: Box::new(
            Solid::Scale {
                body: Box::new(
                    Solid::Translate {
                        body: Box::new(
                            Solid::Rotate {
                                body: Box::new(head_with_eyes(p)),
                                x: 0,
                                y: spec_milli_to_nano(p.head_pitch),
                                z: spec_milli_to_nano(p.head_yaw),
                            },
                        ),
                        x: 0,
                        y: spec_milli_to_nano(p.head_lateral_offset),
                        z: spec_milli_to_nano(p.head_level),
                    },
                ),
                x: HULL_COMPENSATION_NANO,
                y: HULL_COMPENSATION_NANO,
                z: HULL_COMPENSATION_NANO,
            },
        ),
    }
}

/// The finished head recipe: the posed head, subdivided once for smooth
/// shading, then reoriented for the renderer as the very last step.
pub open spec fn head_plan(p: BirdGenInputs) -> Solid {
    upright(Solid::Subdivide { body: Box::new(posed_head(p)), levels: SMOOTHING_LEVELS })
}

/// Builds the head recipe for the given parameter record.
///
/// The result is exactly [`head_plan`] of the record: a pure function of
/// the input, so two calls on equal records yield equal recipes.
pub fn generate_bird_head_mesh(input: &BirdGenInputs) -> (r: Solid)
    requires
        inputs_bounded(*input),
    ensures
        r == head_plan(*input),
{
    let skull = Solid::Sphere {
        radius: half_unit_nano(input.head_size),
        segments: SKULL_SEGMENTS,
        stacks: SPHERE_STACKS,
    };
    assert(skull == skull_solid(*input));

    let beak_tip = Solid::Cylinder {
        radius: beak_tip_radius(input.beak_width),
        height: EPSILON_NANO,
        segments: BEAK_SEGMENTS,
    };
    assert(beak_tip == beak_cylinder(*input));

    let skeleton = Solid::Renormalize {
        body: Box::new(
            Solid::Union {
                left: Box::new(
                    Solid::Rotate {
                        body: Box::new(
                            Solid::Translate {
                                body: Box::new(
                                    Solid::Scale {
                                        body: Box::new(beak_tip),
                                        x: percent_to_nano(input.beak_roundness),
                                        y: NANO_UNIT,
                                        z: NANO_UNIT,
                                    },
                                ),
                                x: beak_reach(input.beak_length, input.head_size),
                                y: 0,
                                z: 0,
                            },
                        ),
                        x: 0,
                        y: BEAK_TILT_NANO,
                        z: 0,
                    },
                ),
                right: Box::new(skull),
            },
        ),
    };
    assert(skeleton == beak_skeleton(*input));

    let hulled = Solid::Renormalize {
        body: Box::new(
            Solid::Scale {
                body: Box::new(Solid::ConvexHull { body: Box::new(skeleton) }),
                x: NANO_UNIT,
                y: percent_to_nano(input.beak_size),
                z: percent_to_nano(input.beak_size),
            },
        ),
    };
    assert(hulled == hulled_head(*input));

    let head = if input.eye_size > 0 {
        let far_eye = Solid::Rotate {
            body: Box::new(
                Solid::Translate {
                    body: Box::new(
                        Solid::Scale {
                            body: Box::new(
                                Solid::Sphere {
                                    radius: half_unit_nano(input.eye_size),
                                    segments: EYE_SEGMENTS,
                                    stacks: EYE_STACKS,
                                },
                            ),
                            x: NANO_UNIT,
                            y: NANO_UNIT,
                            z: EYE_SQUASH_NANO,
                        },
                    ),
                    x: 0,
                    y: 0,
                    z: eye_reach(input.head_size, input.eye_size),
                },
            ),
            x: EYE_TILT_X_NANO,
            y: EYE_TILT_Y_NANO,
            z: 0,
        };
        assert(far_eye == eye_solid(*input));
        let near_eye = Solid::Rotate {
            body: Box::new(
                Solid::Translate {
                    body: Box::new(
                        Solid::Scale {
                            body: Box::new(
                                Solid::Sphere {
                                    radius: half_unit_nano(input.eye_size),
                                    segments: EYE_SEGMENTS,
                                    stacks: EYE_STACKS,
                                },
                            ),
                            x: NANO_UNIT,
                            y: NANO_UNIT,
                            z: EYE_SQUASH_NANO,
                        },
                    ),
                    x: 0,
                    y: 0,
                    z: eye_reach(input.head_size, input.eye_size),
                },
            ),
            x: EYE_TILT_X_NANO,
            y: EYE_TILT_Y_NANO,
            z: 0,
        };
        assert(near_eye == eye_solid(*input));
        let with_far = Solid::Renormalize {
            body: Box::new(
                Solid::Union {
                    left: Box::new(hulled),
                    right: Box::new(
                        Solid::Mirror {
                            body: Box::new(far_eye),
                            nx: 0,
                            ny: NANO_UNIT,
                            nz: 0,
                            offset: 0,
                        },
                    ),
                },
            ),
        };
        Solid::Renormalize {
            body: Box::new(Solid::Union { left: Box::new(with_far), right: Box::new(near_eye) }),
        }
    } else {
        hulled
    };
    assert(head == head_with_eyes(*input));

    let posed = Solid::Renormalize {
        body: Box::new(
            Solid::Scale {
                body: Box::new(
                    Solid::Translate {
                        body: Box::new(
                            Solid::Rotate {
                                body: Box::new(head),
                                x: 0,
                                y: milli_to_nano(input.head_pitch),
                                z: milli_to_nano(input.head_yaw),
                            },
                        ),
                        x: 0,
                        y: milli_to_nano(input.head_lateral_offset),
                        z: milli_to_nano(input.head_level),
                    },
                ),
                x: HULL_COMPENSATION_NANO,
                y: HULL_COMPENSATION_NANO,
                z: HULL_COMPENSATION_NANO,
            },
        ),
    };
    assert(posed == posed_head(*input));

    Solid::Rotate {
        body: Box::new(Solid::Subdivide { body: Box::new(posed), levels: SMOOTHING_LEVELS }),
        x: UPRIGHT_PITCH_NANO,
        y: UPRIGHT_TURN_NANO,
        z: 0,
    }
}

} // verus!
