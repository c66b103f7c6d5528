//! Fixed-point conversions from parameter values to recipe scalars, and
//! the tessellation resolution shared by both generators.
//!
//! Parameters are stored in thousandths of a unit; recipe scalars are in
//! billionths (see [`crate::solid::NANO_UNIT`]). Keeping the two scales
//! three decimal orders apart makes every conversion below exact except
//! the one true quotient, [`spec_stretch_ratio`].

use vstd::prelude::*;

use crate::params::MAX_PARAM_MILLI;

verus! {

/// Base tessellation resolution: longitudinal segments of a full-detail
/// sphere. Both generators derive their per-primitive segment and stack
/// counts from this single knob.
pub const SPHERE_SEGMENTS: usize = 16;

/// Latitudinal stacks of a full-detail sphere.
pub const SPHERE_STACKS: usize = 32;

/// Segments of the skull sphere, the most visible surface: double detail.
pub const SKULL_SEGMENTS: usize = 2 * SPHERE_SEGMENTS;

/// Segments of the beak-tip cylinder: very coarse, since the beak is
/// convex-hulled away immediately.
pub const BEAK_SEGMENTS: usize = SPHERE_SEGMENTS / 4;

/// Segments of an eye sphere: half detail for a small feature.
pub const EYE_SEGMENTS: usize = SPHERE_SEGMENTS / 2 + 2;

/// Stacks of an eye sphere.
pub const EYE_STACKS: usize = SPHERE_STACKS / 2 + 2;

/// Segments of the neck sphere.
pub const NECK_SEGMENTS: usize = SPHERE_SEGMENTS / 2 + 1;

/// Stacks of the neck sphere.
pub const NECK_STACKS: usize = SPHERE_STACKS / 2 + 1;

/// Segments of the chest sphere.
pub const CHEST_SEGMENTS: usize = SPHERE_SEGMENTS + 2;

/// Stacks of the chest sphere.
pub const CHEST_STACKS: usize = SPHERE_STACKS + 2;

/// Segments of the bottom sphere.
pub const BOTTOM_SEGMENTS: usize = SPHERE_SEGMENTS + 1;

/// Stacks of the bottom sphere.
pub const BOTTOM_STACKS: usize = SPHERE_STACKS + 1;

/// Segments of the tail cylinder.
pub const TAIL_SEGMENTS: usize = SPHERE_SEGMENTS + 1;

/// Thickness used in place of zero for degenerate dimensions (a pointed
/// beak tip, the thin end of the tail), in billionths of a unit: feeding a
/// literal zero to a primitive constructor destabilizes the kernel's
/// boolean and hull operations.
pub const EPSILON_NANO: i64 = 100_000_000;

/// A parameter value of `v` thousandths of a unit, as billionths.
pub open spec fn spec_milli_to_nano(v: i64) -> i64 {
    (v * 1_000_000) as i64
}

/// Half of a parameter value, as billionths: diameters become radii.
pub open spec fn spec_half_unit_nano(v: i64) -> i64 {
    (v * 500_000) as i64
}

/// A parameter value read as a percentage, as a scale factor in
/// billionths of one: `100_000` thousandths (that is, 100) becomes
/// `NANO_UNIT` (a factor of one).
pub open spec fn spec_percent_to_nano(v: i64) -> i64 {
    (v * 10_000) as i64
}

/// A parameter value of `v` thousandths of a unit, negated, as
/// billionths: for angles whose positive direction is opposite to the
/// kernel's.
pub open spec fn spec_neg_milli_to_nano(v: i64) -> i64 {
    ((-v) * 1_000_000) as i64
}

/// The radius of the beak-tip cylinder: the requested width when it is
/// positive, else the epsilon thickness, never zero.
pub open spec fn spec_beak_tip_radius(beak_width: i64) -> i64 {
    if beak_width > 0 {
        spec_milli_to_nano(beak_width)
    } else {
        EPSILON_NANO
    }
}

/// How far the beak tip sits from the skull center along the forward
/// axis: the beak length plus the skull radius, negated because the beak
/// points down the negative X axis.
pub open spec fn spec_beak_reach(beak_length: i64, head_size: i64) -> i64 {
    ((-beak_length) * 1_000_000 - head_size * 500_000) as i64
}

/// How far an eye sits from the skull center: the skull radius, pulled
/// back by an eighth of the eye size so the eye is embedded in the skull.
pub open spec fn spec_eye_reach(head_size: i64, eye_size: i64) -> i64 {
    (head_size * 500_000 - eye_size * 125_000) as i64
}

/// The chest stretch factor `belly_length / belly_size` as billionths of
/// one, rounded toward zero. Degenerate records (a belly of zero or
/// negative size or length) yield zero rather than dividing by zero; such
/// records are outside every documented range.
pub open spec fn spec_stretch_ratio(belly_length: i64, belly_size: i64) -> i64 {
    if belly_length < 0 || belly_size <= 0 {
        0
    } else {
        ((belly_length * 1_000_000_000) / (belly_size as int)) as i64
    }
}

/// Where the bottom sphere and the tail root sit along the body axis.
pub open spec fn spec_rear_reach(head_to_belly: i64, belly_to_bottom: i64) -> i64 {
    ((head_to_belly + belly_to_bottom) * 1_000_000) as i64
}

/// The horizontal extent of the base-cut box: ten times the nose-to-tail
/// length, so the cut spans the whole bird with ample margin.
pub open spec fn spec_cut_extent(
    beak_length: i64,
    head_to_belly: i64,
    belly_to_bottom: i64,
    tail_length: i64,
) -> i64 {
    ((beak_length + head_to_belly + belly_to_bottom + tail_length) * 10_000_000) as i64
}

/// The height at which the base-cut box is placed:
/// `belly_size * (-1.5 + base_flat / 200)` model units, as billionths.
/// With thousandths in and the two factors three decimal orders apart,
/// the product lands exactly on the billionths scale.
pub open spec fn spec_cut_height(belly_size: i64, base_flat: i64) -> i64 {
    (belly_size * (base_flat * 5 - 1_500_000)) as i64
}

/// Converts thousandths of a unit to billionths.
pub fn milli_to_nano(v: i64) -> (r: i64)
    requires
        -MAX_PARAM_MILLI <= v <= MAX_PARAM_MILLI,
    ensures
        r == spec_milli_to_nano(v),
{
    v * 1_000_000
}

/// Converts thousandths of a unit to billionths, negating.
pub fn neg_milli_to_nano(v: i64) -> (r: i64)
    requires
        -MAX_PARAM_MILLI <= v <= MAX_PARAM_MILLI,
    ensures
        r == spec_neg_milli_to_nano(v),
{
    (-v) * 1_000_000
}

/// Converts a diameter in thousandths to a radius in billionths.
pub fn half_unit_nano(v: i64) -> (r: i64)
    requires
        -MAX_PARAM_MILLI <= v <= MAX_PARAM_MILLI,
    ensures
        r == spec_half_unit_nano(v),
{
    v * 500_000
}

/// Converts a percentage in thousandths to a scale factor in billionths.
pub fn percent_to_nano(v: i64) -> (r: i64)
    requires
        -MAX_PARAM_MILLI <= v <= MAX_PARAM_MILLI,
    ensures
        r == spec_percent_to_nano(v),
{
    v * 10_000
}

/// Computes the beak-tip radius with the epsilon substitution.
pub fn beak_tip_radius(beak_width: i64) -> (r: i64)
    requires
        -MAX_PARAM_MILLI <= beak_width <= MAX_PARAM_MILLI,
    ensures
        r == spec_beak_tip_radius(beak_width),
{
    if beak_width > 0 {
        milli_to_nano(beak_width)
    } else {
        EPSILON_NANO
    }
}

/// Computes the beak tip's offset from the skull center.
pub fn beak_reach(beak_length: i64, head_size: i64) -> (r: i64)
    requires
        -MAX_PARAM_MILLI <= beak_length <= MAX_PARAM_MILLI,
        -MAX_PARAM_MILLI <= head_size <= MAX_PARAM_MILLI,
    ensures
        r == spec_beak_reach(beak_length, head_size),
{
    (-beak_length) * 1_000_000 - head_size * 500_000
}

/// Computes an eye's offset from the skull center.
pub fn eye_reach(head_size: i64, eye_size: i64) -> (r: i64)
    requires
        -MAX_PARAM_MILLI <= head_size <= MAX_PARAM_MILLI,
        -MAX_PARAM_MILLI <= eye_size <= MAX_PARAM_MILLI,
    ensures
        r == spec_eye_reach(head_size, eye_size),
{
    head_size * 500_000 - eye_size * 125_000
}

/// Computes the chest stretch factor.
pub fn stretch_ratio(belly_length: i64, belly_size: i64) -> (r: i64)
    requires
        -MAX_PARAM_MILLI <= belly_length <= MAX_PARAM_MILLI,
        -MAX_PARAM_MILLI <= belly_size <= MAX_PARAM_MILLI,
    ensures
        r == spec_stretch_ratio(belly_length, belly_size),
{
    if belly_length < 0 || belly_size <= 0 {
        0
    } else {
        let num: u64 = (belly_length as u64) * 1_000_000_000;
        let q: u64 = num / (belly_size as u64);
        q as i64
    }
}

/// Computes the offset of the bottom sphere and tail root.
pub fn rear_reach(head_to_belly: i64, belly_to_bottom: i64) -> (r: i64)
    requires
        -MAX_PARAM_MILLI <= head_to_belly <= MAX_PARAM_MILLI,
        -MAX_PARAM_MILLI <= belly_to_bottom <= MAX_PARAM_MILLI,
    ensures
        r == spec_rear_reach(head_to_belly, belly_to_bottom),
{
    (head_to_belly + belly_to_bottom) * 1_000_000
}

/// Computes the horizontal extent of the base-cut box.
pub fn cut_extent(
    beak_length: i64,
    head_to_belly: i64,
    belly_to_bottom: i64,
    tail_length: i64,
) -> (r: i64)
    requires
        -MAX_PARAM_MILLI <= beak_length <= MAX_PARAM_MILLI,
        -MAX_PARAM_MILLI <= head_to_belly <= MAX_PARAM_MILLI,
        -MAX_PARAM_MILLI <= belly_to_bottom <= MAX_PARAM_MILLI,
        -MAX_PARAM_MILLI <= tail_length <= MAX_PARAM_MILLI,
    ensures
        r == spec_cut_extent(beak_length, head_to_belly, belly_to_bottom, tail_length),
{
    (beak_length + head_to_belly + belly_to_bottom + tail_length) * 10_000_000
}

/// Computes the height of the base-cut box.
pub fn cut_height(belly_size: i64, base_flat: i64) -> (r: i64)
    requires
        -MAX_PARAM_MILLI <= belly_size <= MAX_PARAM_MILLI,
        -MAX_PARAM_MILLI <= base_flat <= MAX_PARAM_MILLI,
    ensures
        r == spec_cut_height(belly_size, base_flat),
{
    let factor: i64 = base_flat * 5 - 1_500_000;
    assert(-501_500_000 <= factor <= 501_500_000);
    assert(-0x7fff_ffff_ffff_ffff <= belly_size * factor <= 0x7fff_ffff_ffff_ffff)
        by (nonlinear_arith)
        requires
            -100_000_000 <= belly_size <= 100_000_000,
            -501_500_000 <= factor <= 501_500_000,
    ;
    belly_size * factor
}

} // verus!
