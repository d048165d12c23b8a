//! Scene registry and GPU record layout for a signed-distance-field raymarcher.
//!
//! Floating-point values (positions, colours, radii, rotations, screen boxes)
//! travel through this library as their IEEE-754 bit patterns (`u32`); the
//! library never does arithmetic on them, it only stores, copies and lays
//! them out byte for byte.

pub mod flags;
pub mod layout;
pub mod shapes;

pub use flags::{Flag, Flags};
pub use layout::{CubeData, F32x3, F32x4, ShapeData, SphereData, UnionData};
pub use shapes::{Cube, ObjectCounts, Shape, ShapeKind, ShapeManager, Sphere, Union};
