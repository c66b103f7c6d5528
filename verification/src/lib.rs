//! A verified parametric generator for a stylized bird model.
//!
//! The library turns a bounded record of named shape parameters into two
//! constructive-solid-geometry recipes, one for the head and one for the
//! body. A recipe is an explicit expression tree of primitives (spheres,
//! cylinders, cuboids) and operations (scale, translate, rotate, union,
//! difference, convex hull, mirror, renormalize, subdivide). The host
//! realizes a recipe with a mesh kernel and renders or prints the result.
//!
//! All lengths, scale factors and angles in a recipe are fixed-point
//! integers in billionths of a model unit (or of a degree), so every step
//! of the construction is exact and verified.

pub mod body;
pub mod head;
pub mod laws;
pub mod params;
pub mod solid;
pub mod units;

pub use body::generate_bird_body_mesh;
pub use head::generate_bird_head_mesh;
pub use params::BirdGenInputs;
pub use params::BirdGenInputTypes;
pub use params::get_input_type_string;
pub use solid::Solid;
