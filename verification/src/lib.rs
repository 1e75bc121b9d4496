//! Verified core of the *Clear Skies* painting pipeline.
//!
//! One camera observes a set of paintable meshes; on a timer gated by a
//! held paint input, the pipeline captures that camera's view, re-projects
//! every visible triangle through a second camera into world space at a
//! distance that shrinks with each layer, and records a painted mesh per
//! triangle. This crate holds the geometric transforms, the layer distance
//! policy, the capture protocol and the paintable-marker propagation, all
//! in fixed-point integer arithmetic with proved contracts. The host
//! engine's rendering, input and asset plumbing stay outside and feed the
//! pipeline plain values.

pub mod args;
pub mod fixed;
pub mod geom;
pub mod layer_distance;
pub mod paint_layer_history;
pub mod paint_meshes;
pub mod projector;
pub mod propagate;
pub mod resolution;
pub mod spherical_coords;
pub mod state;
pub mod triangle_with_uvs;
