//! A small entity-component-system runtime: typed component storage keyed by
//! entity identity, an ordered system scheduler, and the physics, movement and
//! collision systems that act on the stored components once per frame.
//!
//! All simulation arithmetic runs on the fixed-point scalar of `fixed`; the
//! draw passes yield lists of rectangle commands for a rendering collaborator
//! to issue.
pub mod aabb;
pub mod component;
pub mod draw;
pub mod entity;
pub mod fixed;
pub mod gravity;
pub mod movement;
pub mod physics;
pub mod rigidbody;
pub mod sprite;
pub mod system;
pub mod transform;
pub mod vector2;
