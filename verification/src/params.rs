//! The parameter record that drives the bird generators, and the tag
//! enumeration the host uses to read and edit its fields generically.
//!
//! Every field holds thousandths of a model unit (or of a degree for the
//! angle fields), so a stored `15_000` means 15 units. The documented
//! slider ranges are advisory: the generators accept any bounded record
//! and never panic, but the shape is only meaningful inside the ranges.

use vstd::prelude::*;

verus! {

/// The largest magnitude, in thousandths of a unit, that the generators
/// accept in any field: one hundred thousand units, three decimal orders
/// beyond every documented range. The bound keeps all fixed-point
/// conversions inside 64 bits.
pub const MAX_PARAM_MILLI: i64 = 100_000_000;

/// The record of the 22 named shape parameters, in thousandths of a unit.
#[derive(Clone, Copy, PartialEq, Eq, Structural, Debug)]
pub struct BirdGenInputs {
    /// Length of the beak. Documented range 0..=50 units.
    pub beak_length: i64,
    /// Beak silhouette ratio relative to the head size. Range 20..=100.
    pub beak_size: i64,
    /// Width of the beak tip; zero gives a pointed tip. Range 0..=25.
    pub beak_width: i64,
    /// Shape of the beak tip; the lowest value is flat. Range 10..=200.
    pub beak_roundness: i64,
    /// Head diameter. Range 10..=40.
    pub head_size: i64,
    /// Horizontal distance from the head to the main body. Range -20..=50.
    pub head_to_belly: i64,
    /// Size of the eyes; zero removes them. Range 0..=20.
    pub eye_size: i64,
    /// Head lateral offset. Range -15..=15.
    pub head_lateral_offset: i64,
    /// Head vertical height. Range 0..=80.
    pub head_level: i64,
    /// Head horizontal rotation, in thousandths of a degree. Range -45..=45.
    pub head_yaw: i64,
    /// Head vertical rotation, positive is upwards. Range -80..=45.
    pub head_pitch: i64,
    /// Length of the front body. Range 10..=100.
    pub belly_length: i64,
    /// Belly section size. Range 20..=60.
    pub belly_size: i64,
    /// Additional fatness ratio. Range 50..=150.
    pub belly_fat: i64,
    /// Distance from the main body center to the bottom center. Range 1..=50.
    pub belly_to_bottom: i64,
    /// Bottom diameter. Range 5..=50.
    pub bottom_size: i64,
    /// Tail length. Range 0..=100.
    pub tail_length: i64,
    /// Size of the tail. Range 1..=50.
    pub tail_width: i64,
    /// Tail horizontal rotation. Range -45..=45.
    pub tail_yaw: i64,
    /// Tail vertical angle, positive is upwards. Range -45..=90.
    pub tail_pitch: i64,
    /// Roundness of the tail; the lowest value is flat. Range 10..=200.
    pub tail_roundness: i64,
    /// Height of the flat base cut; -100 disables the cut. Range -100..=100.
    pub base_flat: i64,
}

/// One tag per field of [`BirdGenInputs`], for generic field access.
#[derive(Clone, Copy, PartialEq, Eq, Structural, Debug)]
pub enum BirdGenInputTypes {
    BeakLength,
    BeakSize,
    BeakWidth,
    BeakRoundness,
    HeadSize,
    HeadToBelly,
    EyeSize,
    HeadLateralOffset,
    HeadLevel,
    HeadYaw,
    HeadPitch,
    BellyLength,
    BellySize,
    BellyFat,
    BellyToBottom,
    BottomSize,
    TailLength,
    TailWidth,
    TailYaw,
    TailPitch,
    TailRoundness,
    BaseFlat,
}

/// Every field of the record is within the machine bound
/// [`MAX_PARAM_MILLI`] in magnitude. The generators require this of their
/// input; it is far looser than the documented ranges.
pub open spec fn inputs_bounded(p: BirdGenInputs) -> bool {
    &&& -MAX_PARAM_MILLI <= p.beak_length <= MAX_PARAM_MILLI
    &&& -MAX_PARAM_MILLI <= p.beak_size <= MAX_PARAM_MILLI
    &&& -MAX_PARAM_MILLI <= p.beak_width <= MAX_PARAM_MILLI
    &&& -MAX_PARAM_MILLI <= p.beak_roundness <= MAX_PARAM_MILLI
    &&& -MAX_PARAM_MILLI <= p.head_size <= MAX_PARAM_MILLI
    &&& -MAX_PARAM_MILLI <= p.head_to_belly <= MAX_PARAM_MILLI
    &&& -MAX_PARAM_MILLI <= p.eye_size <= MAX_PARAM_MILLI
    &&& -MAX_PARAM_MILLI <= p.head_lateral_offset <= MAX_PARAM_MILLI
    &&& -MAX_PARAM_MILLI <= p.head_level <= MAX_PARAM_MILLI
    &&& -MAX_PARAM_MILLI <= p.head_yaw <= MAX_PARAM_MILLI
    &&& -MAX_PARAM_MILLI <= p.head_pitch <= MAX_PARAM_MILLI
    &&& -MAX_PARAM_MILLI <= p.belly_length <= MAX_PARAM_MILLI
    &&& -MAX_PARAM_MILLI <= p.belly_size <= MAX_PARAM_MILLI
    &&& -MAX_PARAM_MILLI <= p.belly_fat <= MAX_PARAM_MILLI
    &&& -MAX_PARAM_MILLI <= p.belly_to_bottom <= MAX_PARAM_MILLI
    &&& -MAX_PARAM_MILLI <= p.bottom_size <= MAX_PARAM_MILLI
    &&& -MAX_PARAM_MILLI <= p.tail_length <= MAX_PARAM_MILLI
    &&& -MAX_PARAM_MILLI <= p.tail_width <= MAX_PARAM_MILLI
    &&& -MAX_PARAM_MILLI <= p.tail_yaw <= MAX_PARAM_MILLI
    &&& -MAX_PARAM_MILLI <= p.tail_pitch <= MAX_PARAM_MILLI
    &&& -MAX_PARAM_MILLI <= p.tail_roundness <= MAX_PARAM_MILLI
    &&& -MAX_PARAM_MILLI <= p.base_flat <= MAX_PARAM_MILLI
}

/// Every field of the record is within its documented slider range. The
/// user interface clamps to these ranges; the generators accept any
/// bounded record, but the shape laws below are stated on this set.
pub open spec fn in_documented_ranges(p: BirdGenInputs) -> bool {
    &&& 0 <= p.beak_length <= 50_000
    &&& 20_000 <= p.beak_size <= 100_000
    &&& 0 <= p.beak_width <= 25_000
    &&& 10_000 <= p.beak_roundness <= 200_000
    &&& 10_000 <= p.head_size <= 40_000
    &&& -20_000 <= p.head_to_belly <= 50_000
    &&& 0 <= p.eye_size <= 20_000
    &&& -15_000 <= p.head_lateral_offset <= 15_000
    &&& 0 <= p.head_level <= 80_000
    &&& -45_000 <= p.head_yaw <= 45_000
    &&& -80_000 <= p.head_pitch <= 45_000
    &&& 10_000 <= p.belly_length <= 100_000
    &&& 20_000 <= p.belly_size <= 60_000
    &&& 50_000 <= p.belly_fat <= 150_000
    &&& 1_000 <= p.belly_to_bottom <= 50_000
    &&& 5_000 <= p.bottom_size <= 50_000
    &&& 0 <= p.tail_length <= 100_000
    &&& 1_000 <= p.tail_width <= 50_000
    &&& -45_000 <= p.tail_yaw <= 45_000
    &&& -45_000 <= p.tail_pitch <= 90_000
    &&& 10_000 <= p.tail_roundness <= 200_000
    &&& -100_000 <= p.base_flat <= 100_000
}

/// A record inside every documented range is in particular bounded.
pub proof fn lemma_documented_ranges_bounded(p: BirdGenInputs)
    requires
        in_documented_ranges(p),
    ensures
        inputs_bounded(p),
{
}

/// The human-readable label of each parameter field.
pub open spec fn spec_input_type_string(t: BirdGenInputTypes) -> Seq<char> {
    match t {
        BirdGenInputTypes::BeakLength => "Beak Length"@,
        BirdGenInputTypes::BeakSize => "Beak Size"@,
        BirdGenInputTypes::BeakWidth => "Beak Width"@,
        BirdGenInputTypes::BeakRoundness => "Beak Roundness"@,
        BirdGenInputTypes::HeadSize => "Head Size"@,
        BirdGenInputTypes::HeadToBelly => "Head to Belly"@,
        BirdGenInputTypes::EyeSize => "Eye Size"@,
        BirdGenInputTypes::HeadLateralOffset => "Head Lateral Offset"@,
        BirdGenInputTypes::HeadLevel => "Head Level"@,
        BirdGenInputTypes::HeadYaw => "Head Yaw"@,
        BirdGenInputTypes::HeadPitch => "Head Pitch"@,
        BirdGenInputTypes::BellyLength => "Belly Length"@,
        BirdGenInputTypes::BellySize => "Belly Size"@,
        BirdGenInputTypes::BellyFat => "Belly Fat"@,
        BirdGenInputTypes::BellyToBottom => "Belly to Bottom"@,
        BirdGenInputTypes::BottomSize => "Bottom Size"@,
        BirdGenInputTypes::TailLength => "Tail Length"@,
        BirdGenInputTypes::TailWidth => "Tail Width"@,
        BirdGenInputTypes::TailYaw => "Tail Yaw"@,
        BirdGenInputTypes::TailPitch => "Tail Pitch"@,
        BirdGenInputTypes::TailRoundness => "Tail Roundness"@,
        BirdGenInputTypes::BaseFlat => "Base Flat"@,
    }
}

/// Returns the human-readable label of a parameter field, for the host's
/// generic widgets.
pub fn get_input_type_string(input_type: &BirdGenInputTypes) -> (r: &str)
    ensures
        r@ == spec_input_type_string(*input_type),
{
    match input_type {
        BirdGenInputTypes::BeakLength => "Beak Length",
        BirdGenInputTypes::BeakSize => "Beak Size",
        BirdGenInputTypes::BeakWidth => "Beak Width",
        BirdGenInputTypes::BeakRoundness => "Beak Roundness",
        BirdGenInputTypes::HeadSize => "Head Size",
        BirdGenInputTypes::HeadToBelly => "Head to Belly",
        BirdGenInputTypes::EyeSize => "Eye Size",
        BirdGenInputTypes::HeadLateralOffset => "Head Lateral Offset",
        BirdGenInputTypes::HeadLevel => "Head Level",
        BirdGenInputTypes::HeadYaw => "Head Yaw",
        BirdGenInputTypes::HeadPitch => "Head Pitch",
        BirdGenInputTypes::BellyLength => "Belly Length",
        BirdGenInputTypes::BellySize => "Belly Size",
        BirdGenInputTypes::BellyFat => "Belly Fat",
        BirdGenInputTypes::BellyToBottom => "Belly to Bottom",
        BirdGenInputTypes::BottomSize => "Bottom Size",
        BirdGenInputTypes::TailLength => "Tail Length",
        BirdGenInputTypes::TailWidth => "Tail Width",
        BirdGenInputTypes::TailYaw => "Tail Yaw",
        BirdGenInputTypes::TailPitch => "Tail Pitch",
        BirdGenInputTypes::TailRoundness => "Tail Roundness",
        BirdGenInputTypes::BaseFlat => "Base Flat",
    }
}

/// The value a record holds in the field a tag names.
pub open spec fn spec_input_value(t: BirdGenInputTypes, p: BirdGenInputs) -> i64 {
    match t {
        BirdGenInputTypes::BeakLength => p.beak_length,
        BirdGenInputTypes::BeakSize => p.beak_size,
        BirdGenInputTypes::BeakWidth => p.beak_width,
        BirdGenInputTypes::BeakRoundness => p.beak_roundness,
        BirdGenInputTypes::HeadSize => p.head_size,
        BirdGenInputTypes::HeadToBelly => p.head_to_belly,
        BirdGenInputTypes::EyeSize => p.eye_size,
        BirdGenInputTypes::HeadLateralOffset => p.head_lateral_offset,
        BirdGenInputTypes::HeadLevel => p.head_level,
        BirdGenInputTypes::HeadYaw => p.head_yaw,
        BirdGenInputTypes::HeadPitch => p.head_pitch,
        BirdGenInputTypes::BellyLength => p.belly_length,
        BirdGenInputTypes::BellySize => p.belly_size,
        BirdGenInputTypes::BellyFat => p.belly_fat,
        BirdGenInputTypes::BellyToBottom => p.belly_to_bottom,
        BirdGenInputTypes::BottomSize => p.bottom_size,
        BirdGenInputTypes::TailLength => p.tail_length,
        BirdGenInputTypes::TailWidth => p.tail_width,
        BirdGenInputTypes::TailYaw => p.tail_yaw,
        BirdGenInputTypes::TailPitch => p.tail_pitch,
        BirdGenInputTypes::TailRoundness => p.tail_roundness,
        BirdGenInputTypes::BaseFlat => p.base_flat,
    }
}

/// Reads a field of the record by its tag, for the host's generic
/// widgets.
pub fn get_input_value_for_type(
    input_type: &BirdGenInputTypes,
    input_values: &BirdGenInputs,
) -> (r: i64)
    ensures
        r == spec_input_value(*input_type, *input_values),
{
    match input_type {
        BirdGenInputTypes::BeakLength => input_values.beak_length,
        BirdGenInputTypes::BeakSize => input_values.beak_size,
        BirdGenInputTypes::BeakWidth => input_values.beak_width,
        BirdGenInputTypes::BeakRoundness => input_values.beak_roundness,
        BirdGenInputTypes::HeadSize => input_values.head_size,
        BirdGenInputTypes::HeadToBelly => input_values.head_to_belly,
        BirdGenInputTypes::EyeSize => input_values.eye_size,
        BirdGenInputTypes::HeadLateralOffset => input_values.head_lateral_offset,
        BirdGenInputTypes::HeadLevel => input_values.head_level,
        BirdGenInputTypes::HeadYaw => input_values.head_yaw,
        BirdGenInputTypes::HeadPitch => input_values.head_pitch,
        BirdGenInputTypes::BellyLength => input_values.belly_length,
        BirdGenInputTypes::BellySize => input_values.belly_size,
        BirdGenInputTypes::BellyFat => input_values.belly_fat,
        BirdGenInputTypes::BellyToBottom => input_values.belly_to_bottom,
        BirdGenInputTypes::BottomSize => input_values.bottom_size,
        BirdGenInputTypes::TailLength => input_values.tail_length,
        BirdGenInputTypes::TailWidth => input_values.tail_width,
        BirdGenInputTypes::TailYaw => input_values.tail_yaw,
        BirdGenInputTypes::TailPitch => input_values.tail_pitch,
        BirdGenInputTypes::TailRoundness => input_values.tail_roundness,
        BirdGenInputTypes::BaseFlat => input_values.base_flat,
    }
}

/// The record with the field a tag names replaced by a new value, all
/// other fields unchanged.
pub open spec fn spec_with_input_value(
    t: BirdGenInputTypes,
    p: BirdGenInputs,
    v: i64,
) -> BirdGenInputs {
    match t {
        BirdGenInputTypes::BeakLength => BirdGenInputs { beak_length: v, ..p },
        BirdGenInputTypes::BeakSize => BirdGenInputs { beak_size: v, ..p },
        BirdGenInputTypes::BeakWidth => BirdGenInputs { beak_width: v, ..p },
        BirdGenInputTypes::BeakRoundness => BirdGenInputs { beak_roundness: v, ..p },
        BirdGenInputTypes::HeadSize => BirdGenInputs { head_size: v, ..p },
        BirdGenInputTypes::HeadToBelly => BirdGenInputs { head_to_belly: v, ..p },
        BirdGenInputTypes::EyeSize => BirdGenInputs { eye_size: v, ..p },
        BirdGenInputTypes::HeadLateralOffset => BirdGenInputs { head_lateral_offset: v, ..p },
        BirdGenInputTypes::HeadLevel => BirdGenInputs { head_level: v, ..p },
        BirdGenInputTypes::HeadYaw => BirdGenInputs { head_yaw: v, ..p },
        BirdGenInputTypes::HeadPitch => BirdGenInputs { head_pitch: v, ..p },
        BirdGenInputTypes::BellyLength => BirdGenInputs { belly_length: v, ..p },
        BirdGenInputTypes::BellySize => BirdGenInputs { belly_size: v, ..p },
        BirdGenInputTypes::BellyFat => BirdGenInputs { belly_fat: v, ..p },
        BirdGenInputTypes::BellyToBottom => BirdGenInputs { belly_to_bottom: v, ..p },
        BirdGenInputTypes::BottomSize => BirdGenInputs { bottom_size: v, ..p },
        BirdGenInputTypes::TailLength => BirdGenInputs { tail_length: v, ..p },
        BirdGenInputTypes::TailWidth => BirdGenInputs { tail_width: v, ..p },
        BirdGenInputTypes::TailYaw => BirdGenInputs { tail_yaw: v, ..p },
        BirdGenInputTypes::TailPitch => BirdGenInputs { tail_pitch: v, ..p },
        BirdGenInputTypes::TailRoundness => BirdGenInputs { tail_roundness: v, ..p },
        BirdGenInputTypes::BaseFlat => BirdGenInputs { base_flat: v, ..p },
    }
}

/// Writes a field of the record by its tag, leaving every other field
/// unchanged, for the host's generic widgets.
pub fn set_input_value_for_type(
    input_type: &BirdGenInputTypes,
    input_values: &mut BirdGenInputs,
    value: i64,
)
    ensures
        *final(input_values) == spec_with_input_value(*input_type, *old(input_values), value),
{
    match input_type {
        BirdGenInputTypes::BeakLength => input_values.beak_length = value,
        BirdGenInputTypes::BeakSize => input_values.beak_size = value,
        BirdGenInputTypes::BeakWidth => input_values.beak_width = value,
        BirdGenInputTypes::BeakRoundness => input_values.beak_roundness = value,
        BirdGenInputTypes::HeadSize => input_values.head_size = value,
        BirdGenInputTypes::HeadToBelly => input_values.head_to_belly = value,
        BirdGenInputTypes::EyeSize => input_values.eye_size = value,
        BirdGenInputTypes::HeadLateralOffset => input_values.head_lateral_offset = value,
        BirdGenInputTypes::HeadLevel => input_values.head_level = value,
        BirdGenInputTypes::HeadYaw => input_values.head_yaw = value,
        BirdGenInputTypes::HeadPitch => input_values.head_pitch = value,
        BirdGenInputTypes::BellyLength => input_values.belly_length = value,
        BirdGenInputTypes::BellySize => input_values.belly_size = value,
        BirdGenInputTypes::BellyFat => input_values.belly_fat = value,
        BirdGenInputTypes::BellyToBottom => input_values.belly_to_bottom = value,
        BirdGenInputTypes::BottomSize => input_values.bottom_size = value,
        BirdGenInputTypes::TailLength => input_values.tail_length = value,
        BirdGenInputTypes::TailWidth => input_values.tail_width = value,
        BirdGenInputTypes::TailYaw => input_values.tail_yaw = value,
        BirdGenInputTypes::TailPitch => input_values.tail_pitch = value,
        BirdGenInputTypes::TailRoundness => input_values.tail_roundness = value,
        BirdGenInputTypes::BaseFlat => input_values.base_flat = value,
    }
}

/// Reading a field right after writing it yields the written value: the
/// tag enumeration stays in exact one-to-one correspondence with the
/// record's fields.
pub proof fn lemma_get_after_set(t: BirdGenInputTypes, p: BirdGenInputs, v: i64)
    ensures
        spec_input_value(t, spec_with_input_value(t, p, v)) == v,
{
}

/// Writing one field leaves every other field as it was: a tag touches
/// only the field it names.
pub proof fn lemma_set_preserves_other_fields(
    t1: BirdGenInputTypes,
    t2: BirdGenInputTypes,
    p: BirdGenInputs,
    v: i64,
)
    requires
        t1 != t2,
    ensures
        spec_input_value(t2, spec_with_input_value(t1, p, v)) == spec_input_value(t2, p),
{
}

/// The canonical default record, in thousandths of a unit: the initial
/// state of the host's interface and the reference instance for tests.
pub open spec fn spec_default_inputs() -> BirdGenInputs {
    BirdGenInputs {
        beak_length: 15_000,
        beak_size: 100_000,
        beak_width: 5_000,
        beak_roundness: 10_000,
        head_size: 22_000,
        head_to_belly: 32_000,
        eye_size: 5_000,
        head_lateral_offset: 4_000,
        head_level: 32_000,
        head_yaw: 10_000,
        head_pitch: 9_000,
        belly_length: 60_000,
        belly_size: 40_000,
        belly_fat: 90_000,
        belly_to_bottom: 25_000,
        bottom_size: 25_000,
        tail_length: 50_000,
        tail_width: 22_000,
        tail_yaw: -5_000i64,
        tail_pitch: 40_000,
        tail_roundness: 80_000,
        base_flat: 50_000,
    }
}

/// The default record lies inside every documented range.
pub proof fn lemma_default_in_documented_ranges()
    ensures
        in_documented_ranges(spec_default_inputs()),
{
}

impl Default for BirdGenInputs {
    /// Returns the canonical default record.
    fn default() -> (r: Self)
        ensures
            r == spec_default_inputs(),
    {
        BirdGenInputs {
            beak_length: 15_000,
            beak_size: 100_000,
            beak_width: 5_000,
            beak_roundness: 10_000,
            head_size: 22_000,
            head_to_belly: 32_000,
            eye_size: 5_000,
            head_lateral_offset: 4_000,
            head_level: 32_000,
            head_yaw: 10_000,
            head_pitch: 9_000,
            belly_length: 60_000,
            belly_size: 40_000,
            belly_fat: 90_000,
            belly_to_bottom: 25_000,
            bottom_size: 25_000,
            tail_length: 50_000,
            tail_width: 22_000,
            tail_yaw: -5_000,
            tail_pitch: 40_000,
            tail_roundness: 80_000,
            base_flat: 50_000,
        }
    }
}

/// The documented slider range of the field a tag names, in thousandths
/// of a unit, inclusive on both ends.
pub open spec fn spec_input_range(t: BirdGenInputTypes) -> (i64, i64) {
    match t {
        BirdGenInputTypes::BeakLength => (0, 50_000),
        BirdGenInputTypes::BeakSize => (20_000, 100_000),
        BirdGenInputTypes::BeakWidth => (0, 25_000),
        BirdGenInputTypes::BeakRoundness => (10_000, 200_000),
        BirdGenInputTypes::HeadSize => (10_000, 40_000),
        BirdGenInputTypes::HeadToBelly => (-20_000i64, 50_000i64),
        BirdGenInputTypes::EyeSize => (0, 20_000),
        BirdGenInputTypes::HeadLateralOffset => (-15_000i64, 15_000i64),
        BirdGenInputTypes::HeadLevel => (0, 80_000),
        BirdGenInputTypes::HeadYaw => (-45_000i64, 45_000i64),
        BirdGenInputTypes::HeadPitch => (-80_000i64, 45_000i64),
        BirdGenInputTypes::BellyLength => (10_000, 100_000),
        BirdGenInputTypes::BellySize => (20_000, 60_000),
        BirdGenInputTypes::BellyFat => (50_000, 150_000),
        BirdGenInputTypes::BellyToBottom => (1_000, 50_000),
        BirdGenInputTypes::BottomSize => (5_000, 50_000),
        BirdGenInputTypes::TailLength => (0, 100_000),
        BirdGenInputTypes::TailWidth => (1_000, 50_000),
        BirdGenInputTypes::TailYaw => (-45_000i64, 45_000i64),
        BirdGenInputTypes::TailPitch => (-45_000i64, 90_000i64),
        BirdGenInputTypes::TailRoundness => (10_000, 200_000),
        BirdGenInputTypes::BaseFlat => (-100_000i64, 100_000i64),
    }
}

/// Returns the documented range of a field as `(minimum, maximum)`, both
/// inclusive, for the host's sliders.
pub fn get_input_range_for_type(input_type: &BirdGenInputTypes) -> (r: (i64, i64))
    ensures
        r == spec_input_range(*input_type),
{
    match input_type {
        BirdGenInputTypes::BeakLength => (0, 50_000),
        BirdGenInputTypes::BeakSize => (20_000, 100_000),
        BirdGenInputTypes::BeakWidth => (0, 25_000),
        BirdGenInputTypes::BeakRoundness => (10_000, 200_000),
        BirdGenInputTypes::HeadSize => (10_000, 40_000),
        BirdGenInputTypes::HeadToBelly => (-20_000, 50_000),
        BirdGenInputTypes::EyeSize => (0, 20_000),
        BirdGenInputTypes::HeadLateralOffset => (-15_000, 15_000),
        BirdGenInputTypes::HeadLevel => (0, 80_000),
        BirdGenInputTypes::HeadYaw => (-45_000, 45_000),
        BirdGenInputTypes::HeadPitch => (-80_000, 45_000),
        BirdGenInputTypes::BellyLength => (10_000, 100_000),
        BirdGenInputTypes::BellySize => (20_000, 60_000),
        BirdGenInputTypes::BellyFat => (50_000, 150_000),
        BirdGenInputTypes::BellyToBottom => (1_000, 50_000),
        BirdGenInputTypes::BottomSize => (5_000, 50_000),
        BirdGenInputTypes::TailLength => (0, 100_000),
        BirdGenInputTypes::TailWidth => (1_000, 50_000),
        BirdGenInputTypes::TailYaw => (-45_000, 45_000),
        BirdGenInputTypes::TailPitch => (-45_000, 90_000),
        BirdGenInputTypes::TailRoundness => (10_000, 200_000),
        BirdGenInputTypes::BaseFlat => (-100_000, 100_000),
    }
}

/// All 22 field tags, in the record's declaration order.
pub open spec fn spec_all_input_types() -> Seq<BirdGenInputTypes> {
    seq![
        BirdGenInputTypes::BeakLength,
        BirdGenInputTypes::BeakSize,
        BirdGenInputTypes::BeakWidth,
        BirdGenInputTypes::BeakRoundness,
        BirdGenInputTypes::HeadSize,
        BirdGenInputTypes::HeadToBelly,
        BirdGenInputTypes::EyeSize,
        BirdGenInputTypes::HeadLateralOffset,
        BirdGenInputTypes::HeadLevel,
        BirdGenInputTypes::HeadYaw,
        BirdGenInputTypes::HeadPitch,
        BirdGenInputTypes::BellyLength,
        BirdGenInputTypes::BellySize,
        BirdGenInputTypes::BellyFat,
        BirdGenInputTypes::BellyToBottom,
        BirdGenInputTypes::BottomSize,
        BirdGenInputTypes::TailLength,
        BirdGenInputTypes::TailWidth,
        BirdGenInputTypes::TailYaw,
        BirdGenInputTypes::TailPitch,
        BirdGenInputTypes::TailRoundness,
        BirdGenInputTypes::BaseFlat,
    ]
}

/// Enumerates every field tag once, in the record's declaration order,
/// for the host to build its widgets from.
pub fn all_input_types() -> (r: Vec<BirdGenInputTypes>)
    ensures
        r@ == spec_all_input_types(),
{
    let r: Vec<BirdGenInputTypes> = vec![
        BirdGenInputTypes::BeakLength,
        BirdGenInputTypes::BeakSize,
        BirdGenInputTypes::BeakWidth,
        BirdGenInputTypes::BeakRoundness,
        BirdGenInputTypes::HeadSize,
        BirdGenInputTypes::HeadToBelly,
        BirdGenInputTypes::EyeSize,
        BirdGenInputTypes::HeadLateralOffset,
        BirdGenInputTypes::HeadLevel,
        BirdGenInputTypes::HeadYaw,
        BirdGenInputTypes::HeadPitch,
        BirdGenInputTypes::BellyLength,
        BirdGenInputTypes::BellySize,
        BirdGenInputTypes::BellyFat,
        BirdGenInputTypes::BellyToBottom,
        BirdGenInputTypes::BottomSize,
        BirdGenInputTypes::TailLength,
        BirdGenInputTypes::TailWidth,
        BirdGenInputTypes::TailYaw,
        BirdGenInputTypes::TailPitch,
        BirdGenInputTypes::TailRoundness,
        BirdGenInputTypes::BaseFlat,
    ];
    proof {
        assert(r@ =~= spec_all_input_types());
    }
    r
}

} // verus!
