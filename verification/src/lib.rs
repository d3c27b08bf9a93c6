//! A verified model of a four-directional sprite walker.
//!
//! The library holds the frame-by-frame logic of a player sprite: resolving
//! held movement keys into a velocity, selecting a walk or idle animation
//! range when a direction key is pressed or released, advancing a repeating
//! frame timer, and integrating position by velocity and elapsed time.
//! Positions, velocities and times are integers in caller-chosen units, so
//! every step is exact and every contract is proved.
//!
//! The host (window, input polling, rendering, the real clock) stays outside:
//! it feeds plain key flags and elapsed ticks into [`player::Player::update`]
//! once per frame and draws from the resulting state.

pub mod movement;
pub mod player;
pub mod laws;
