//! Narrow-phase contact generation on an exact integer lattice.
//!
//! Every length, coordinate and weight is an `i64` that counts fixed-point
//! units: [`math::ONE`] units make one whole. Work that leaves the lattice
//! (normalising a displacement, projecting a point on a shape) is done by the
//! caller and handed in as plain values; what is decided from those values is
//! decided, and proved, here.

pub mod ball_convex_polyhedron;
pub mod contact;
pub mod feature;
pub mod id_allocator;
pub mod manifold;
pub mod math;
pub mod one_shot;
pub mod simplex;
