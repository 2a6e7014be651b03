//! Escape-time fractal rendering.
//!
//! - `canvas`: the supersampled pixel grid and its row-major indexing.
//! - `escape`: the escape-time evaluator.
//! - `render`: the engine that paints every slot of the pixel buffer, in
//!   parallel or in runs, and the laws that make the order irrelevant.
//! - `palette`: colour tables and the choice of one by name.
//! - `cli`, `number`, `lexer`: the command line that configures a run.
//!
//! Numbers on the complex plane never appear here. The engine is generic in
//! the point type and receives the coordinate mapper, the iterated map, the
//! divergence test and the colour resolver as functions, so every contract
//! holds for whatever arithmetic the caller supplies.

pub mod canvas;
pub mod cli;
pub mod escape;
pub mod lexer;
pub mod number;
pub mod palette;
pub mod render;
