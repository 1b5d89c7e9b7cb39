//! Verified orbit-camera controller core.
//!
//! Raw pointer / button / scroll input is accumulated into orbit deltas,
//! applied to a spherical camera state (yaw, pitch, radius), and turned into
//! a view-projection matrix for a GPU pipeline. All quantities are held in
//! signed fixed-point with a scale of one million, so the whole pipeline is
//! plain integer arithmetic that Verus can reason about exactly; the host
//! application converts to and from its native floating-point types at the
//! boundary.

pub mod camera;
pub mod events;
pub mod fx;
pub mod matrix;
pub mod trig;
