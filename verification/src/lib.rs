//! Host side of a slime-mould simulation whose agents and trail field live
//! on the graphics device: configuration, the layout of the three bound
//! buffers, the grids and order of the compute dispatches of a tick, and the
//! decisions of the simulation clock and of the render loop.

pub mod dispatch;
pub mod parameters;
pub mod pipelines;
pub mod queue;
mod random;
pub mod render;
pub mod resources;
pub mod simulation;
