//! Decisions of a camera capture-and-forward program: command-line
//! validation, the capture request, the writer's settings and streaming
//! pipeline description, and the frame loop as a state machine.  The device
//! and writer themselves are driven by the caller.

use vstd::prelude::*;

pub mod cli;
pub mod clock;
pub mod config;
pub mod device;
pub mod frame_loop;
pub mod sink;
pub mod text;

verus! {

} // verus!
