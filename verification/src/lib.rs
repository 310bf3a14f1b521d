//! A small 2D-geometry and motion toolkit for tile- and pixel-based games.
//!
//! Positions, displacements and sizes are pairs of scaled fixed-point
//! numbers ([`fixed::Fixed`]). A [`mask::Mask`] is anything with a position,
//! a size and an origin anchor, from which all rectangle geometry (corners,
//! sides, intersection tests) is derived.

pub mod fixed;
pub mod point;
pub mod vector;
pub mod size;
pub mod base;
pub mod convert;
pub mod invert;
pub mod origin;
pub mod sides;
pub mod mask;
pub mod rect;
pub mod velocity;
pub mod movement;
pub mod body;
pub mod camera;
pub mod deltatime;
pub mod input_manager;

pub use base::BaseVectorPoint;
pub use convert::{AsPoint, AsVector};
pub use fixed::Fixed;
pub use invert::Invert;
pub use mask::Mask;
pub use movement::Movement;
pub use origin::Origin;
pub use point::Point;
pub use rect::Rect;
pub use size::Size;
pub use vector::Vector;
pub use velocity::Velocity;
