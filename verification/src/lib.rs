//! Verified core of a small 2D game in which a player capsule, tethered to a
//! draggable ball, swims around while fish pursue it.
//!
//! The host engine owns the windows, rendering, physics integration, asset
//! loading and raw input; this crate holds the decision logic that sits
//! between those services: the hover detector, the drag state machine, the
//! sprite animation state machine, and the player and pursuit controllers.
//! Each frame the host hands the library plain values (cursor position,
//! button edges, key state, entity transforms and velocities) and carries out
//! the forces, impulses and rotation targets the library hands back.
//!
//! All coordinates, velocities and displacements are fixed-point integers
//! with [`geom::UNIT`] steps per world unit, so every decision in this crate
//! is exact and provable; the floating-point work that remains (camera
//! unprojection, quaternion interpolation toward a returned heading) stays
//! with the host.

pub mod animation;
pub mod drag;
pub mod enemy;
pub mod frame;
pub mod geom;
pub mod hover;
pub mod player;
