//! A kinematic 2D character-controller movement model.
//!
//! The model covers the per-tick decision logic of a platformer player
//! character: a jump-cooldown timer, a vertical velocity integrator that
//! reconciles jump impulses with gravity, a horizontal velocity selector
//! driven by held movement keys, and a translation composer that turns the
//! resulting velocity into the displacement handed to a physics back end.
//! The back end itself (collision resolution, rendering, input sampling) is
//! an external collaborator: it consumes the composed displacement and
//! reports back the character's grounded state for the next tick.
//!
//! All quantities are exact fixed-point integers:
//! time in milliseconds, velocity in milli-units per second, gravity in
//! whole units per second squared, and displacement in micro-units.
//! With these scales every per-tick computation is a plain product or sum,
//! so the contracts pin each result down exactly.

pub mod character;
pub mod step;
pub mod laws;
