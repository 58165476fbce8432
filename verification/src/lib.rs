//! Integer core of a terminal black-hole raytracer: the frame buffer of
//! half-block cells, the layout of rays over it, the celestial grid pattern,
//! the span batching of terminal rows and the input state machine.
use vstd::prelude::*;

pub mod constants;
pub mod render;
pub mod tui;

verus! {
} // verus!
