//! A debug overlay for a 2D physics simulation.
//!
//! Given per-frame collider state and collision events, the overlay computes
//! the immediate-mode drawing primitives that visualize collider bounding
//! volumes, collider shape outlines, and contact points. It owns no
//! simulation state and performs no physics computation: every pass is a
//! pure function from simulation data and a configuration value to an
//! ordered sequence of draw calls, which a host hands to its drawing
//! surface.

pub mod geometry;
pub mod render;
pub mod shapes;
