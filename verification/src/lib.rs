//! A square moving on a bounded grid: position updates under two edge
//! policies (clamp or wrap), user-toggled behavior flags, a held-direction
//! state machine, and a tick driver with random per-tick jitter.

pub mod driver;
pub mod lemmas;
pub mod state;
