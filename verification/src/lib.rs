//! Player movement and camera-tracking core.
//!
//! The library owns the decision logic of a first/third-person character
//! controller: the locomotion state machine (idle / moving / ducking /
//! sliding / airborne push-down), the per-frame translation of key input
//! into impulse and velocity intents, the pitch-flip guard of the look
//! controller, and the chase camera's one-shot target acquisition and
//! follow rule. The host engine supplies the floating-point vector and
//! quaternion arithmetic and the entity queries; this crate works on plain
//! values (flags, integer impulses, fixed-point placements) so that every
//! rule is stated and proved.

pub mod camera;
pub mod locomotion;
pub mod look;
