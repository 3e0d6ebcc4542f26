//! A fixed-size pixel canvas on which independent "tube" agents perform biased
//! random walks, each leaving a coloured trail.
//!
//! Everything an agent knows about space is held in fixed-point integers
//! ([`point::ONE`] units per pixel), so that every step of the walk, the
//! boundary rule and the drawing rule are exact.
//!
//! - [`facing`]: the four headings and the quarter turns between them.
//! - [`point`]: fixed-point coordinates and the pixel that holds one.
//! - [`random`]: the source of chance behind an agent's turns.
//! - [`canvas`]: the pixel buffer and the stamping of one pixel.
//! - [`tube`]: the agent and its tick.
//! - [`scene`]: update and redraw of the whole collection of agents.
//! - [`host`]: what the simulation asks of the loop that hosts it.

pub mod facing;
pub mod point;
pub mod random;
pub mod canvas;
pub mod tube;
pub mod scene;
pub mod host;
