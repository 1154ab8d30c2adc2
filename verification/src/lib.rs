//! Core logic of a progressive triangle-splat viewer.
//!
//! The library covers the parts of the viewer that can be stated and proved
//! over plain values: parsing and depth-sorting the splat stream, sizing the
//! render targets, planning the per-frame accumulation passes with their
//! ping-pong target discipline, adaptive subframe pacing, and letterboxing.
//! The GPU submission, windowing and UI around it live in the accompanying
//! application crate.

pub mod frame;
pub mod load;
pub mod pacer;
pub mod render;
pub mod resolution;
pub mod scene;
pub mod sort;
pub mod state;
