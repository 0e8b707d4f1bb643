//! Timer-driven colour cycling over a loaded scene graph.
//!
//! A cyclic index walks a fixed palette. Once a tracked scene has finished
//! loading, a driver paints the selected nodes of its tree with the colour
//! under the index each time its timer completes an interval.
//!
//! - `palette`: the colours and the cyclic index.
//! - `scene`: the tree, the selectors, and the walk that recolours.
//! - `readiness`: which tracked roots have finished loading.
//! - `timer`: what is taken on trust of the engine's timer.
//! - `countdown`: the run of a fixed number of steps, started by a signal.
//! - `cycle`: the cycle that repeats for as long as it is ticked.

pub mod palette;
pub mod scene;
pub mod readiness;
pub mod timer;
pub mod countdown;
pub mod cycle;
